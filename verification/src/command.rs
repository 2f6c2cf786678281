//! What an operation asks of the world, what it is answered, and the steps
//! that lead from one to the next.
//!
//! An operation is a function of the replies received so far: it either makes
//! the next request or is done. Whoever drives it meets the request, appends
//! the reply and calls it again.

use vstd::prelude::*;
use vstd::string::*;
use vstd::utf8::*;

verus! {

/// A command to run.
#[derive(Debug, PartialEq, Eq)]
pub struct Invocation {
    pub program: String,
    pub args: Vec<String>,
    /// Whether the output is collected; otherwise it goes where the caller's does.
    pub captured: bool,
}

/// What an `Invocation` holds.
#[verifier::ext_equal]
pub struct InvocationView {
    pub program: Seq<char>,
    pub args: Seq<Seq<char>>,
    pub captured: bool,
}

impl View for Invocation {
    type V = InvocationView;

    open spec fn view(&self) -> InvocationView {
        InvocationView {
            program: self.program@,
            args: crate::text::texts(self.args@),
            captured: self.captured,
        }
    }
}

/// How a command that was started has ended.
#[derive(Debug, PartialEq, Eq)]
pub struct Output {
    pub success: bool,
    /// The exit status in words.
    pub status: String,
    pub stdout: Vec<u8>,
    pub stderr: Vec<u8>,
}

/// Something that an operation wants done or wants to know.
#[derive(Debug, PartialEq, Eq)]
pub enum Request {
    /// Run a command.
    Run(Invocation),
    /// Read the file with this path as text.
    ReadFile(String),
    /// Find out the path of this program.
    ProgramPath,
}

/// What a `Request` holds.
#[verifier::ext_equal]
pub enum RequestView {
    Run(InvocationView),
    ReadFile(Seq<char>),
    ProgramPath,
}

impl View for Request {
    type V = RequestView;

    open spec fn view(&self) -> RequestView {
        match self {
            Request::Run(invocation) => RequestView::Run(invocation@),
            Request::ReadFile(path) => RequestView::ReadFile(path@),
            Request::ProgramPath => RequestView::ProgramPath,
        }
    }
}

/// What came of a request.
#[derive(Debug, PartialEq, Eq)]
pub enum Reply {
    /// The command could not be started, or the text is not to be had, for the
    /// reason given.
    Failed(String),
    /// The command was started and has ended.
    Exited(Output),
    /// The text that was asked for.
    Text(String),
}

/// How the command ended that `reply` answers, or why it did not start. A text
/// is no answer to a command.
pub open spec fn outcome(reply: Reply) -> Result<Output, Seq<char>> {
    match reply {
        Reply::Failed(e) => Err(e@),
        Reply::Exited(out) => Ok(out),
        Reply::Text(_) => Err("unexpected reply"@),
    }
}

/// How the command ended that `reply` answers, or why it did not start.
pub fn output_of(reply: &Reply) -> (out: Result<&Output, String>)
    ensures
        match out {
            Ok(o) => outcome(*reply) == Ok::<Output, Seq<char>>(*o),
            Err(e) => outcome(*reply) == Err::<Output, Seq<char>>(e@),
        },
{
    match reply {
        Reply::Failed(e) => Err(e.clone()),
        Reply::Exited(out) => Ok(out),
        Reply::Text(_) => Err("unexpected reply".to_owned()),
    }
}

/// The text in `reply`, or why there is none. The end of a command is no text.
pub open spec fn given_text(reply: Reply) -> Result<Seq<char>, Seq<char>> {
    match reply {
        Reply::Failed(e) => Err(e@),
        Reply::Exited(_) => Err("unexpected reply"@),
        Reply::Text(s) => Ok(s@),
    }
}

/// The text in `reply`, or why there is none.
pub fn text_of(reply: &Reply) -> (text: Result<&str, String>)
    ensures
        match text {
            Ok(s) => given_text(*reply) == Ok::<Seq<char>, Seq<char>>(s@),
            Err(e) => given_text(*reply) == Err::<Seq<char>, Seq<char>>(e@),
        },
{
    match reply {
        Reply::Failed(e) => Err(e.clone()),
        Reply::Exited(_) => Err("unexpected reply".to_owned()),
        Reply::Text(s) => Ok(s.as_str()),
    }
}

/// The parts of the work that tmux can refuse.
#[derive(Clone, Copy, Debug, PartialEq, Eq, Structural)]
pub enum Part {
    NewWindow,
    JoinPane,
    ListPanes,
    Restart,
    Swap,
}

/// Why an operation failed.
#[derive(Debug, PartialEq, Eq)]
pub enum TmuxError {
    /// The path of this program is not known, for the reason given.
    Program(String),
    /// A command could not be started, for the reason given.
    Launch(String),
    /// tmux refused; `stderr` is what it said.
    Refused { part: Part, stderr: String },
    /// An output is no UTF-8, as the text says.
    NotUtf8(String),
    /// No pane was listed for the window of this pane.
    NoPanes(String),
    /// There is no tmux around this program.
    NotInTmux,
    /// The current pane was described in another form, which is given.
    UnexpectedOutput(String),
    /// A status file could not be read, for the reason given.
    StatusFile(String),
    /// The process is not running.
    NotRunning,
    /// `kill` could not be started, for the reason given.
    Kill(String),
    /// `kill` ended with the status given.
    KillExited(String),
}

/// What a `TmuxError` holds.
#[verifier::ext_equal]
pub enum TmuxErrorView {
    Program(Seq<char>),
    Launch(Seq<char>),
    Refused { part: Part, stderr: Seq<char> },
    NotUtf8(Seq<char>),
    NoPanes(Seq<char>),
    NotInTmux,
    UnexpectedOutput(Seq<char>),
    StatusFile(Seq<char>),
    NotRunning,
    Kill(Seq<char>),
    KillExited(Seq<char>),
}

impl View for TmuxError {
    type V = TmuxErrorView;

    open spec fn view(&self) -> TmuxErrorView {
        match self {
            TmuxError::Program(e) => TmuxErrorView::Program(e@),
            TmuxError::Launch(e) => TmuxErrorView::Launch(e@),
            TmuxError::Refused { part, stderr } => TmuxErrorView::Refused {
                part: *part,
                stderr: stderr@,
            },
            TmuxError::NotUtf8(e) => TmuxErrorView::NotUtf8(e@),
            TmuxError::NoPanes(pane) => TmuxErrorView::NoPanes(pane@),
            TmuxError::NotInTmux => TmuxErrorView::NotInTmux,
            TmuxError::UnexpectedOutput(s) => TmuxErrorView::UnexpectedOutput(s@),
            TmuxError::StatusFile(e) => TmuxErrorView::StatusFile(e@),
            TmuxError::NotRunning => TmuxErrorView::NotRunning,
            TmuxError::Kill(e) => TmuxErrorView::Kill(e@),
            TmuxError::KillExited(s) => TmuxErrorView::KillExited(s@),
        }
    }
}

/// The name of a part in messages.
pub open spec fn part_name(part: Part) -> Seq<char> {
    match part {
        Part::NewWindow => "new-window"@,
        Part::JoinPane => "join-pane"@,
        Part::ListPanes => "list-panes"@,
        Part::Restart => "restart"@,
        Part::Swap => "swap"@,
    }
}

impl TmuxErrorView {
    /// The error in words.
    pub open spec fn message(self) -> Seq<char> {
        match self {
            TmuxErrorView::Program(e) => e,
            TmuxErrorView::Launch(e) => e,
            TmuxErrorView::Refused { part, stderr } => "tmux "@ + part_name(part) + " failed: "@
                + stderr,
            TmuxErrorView::NotUtf8(e) => e,
            TmuxErrorView::NoPanes(pane) => "no panes found in window containing "@ + pane,
            TmuxErrorView::NotInTmux => "not running inside tmux"@,
            TmuxErrorView::UnexpectedOutput(s) => "unexpected tmux display-message output: "@ + s,
            TmuxErrorView::StatusFile(e) => "cannot read status file: "@ + e,
            TmuxErrorView::NotRunning => "process is not running"@,
            TmuxErrorView::Kill(e) => "kill failed: "@ + e,
            TmuxErrorView::KillExited(s) => "kill exited with "@ + s,
        }
    }
}

/// `head` with `tail` behind it.
pub fn concat(head: &str, tail: &str) -> (all: String)
    ensures
        all@ == head@ + tail@,
{
    let mut all: String = head.to_owned();
    all.append(tail);
    all
}

impl TmuxError {
    /// The error in words.
    pub fn message(&self) -> (text: String)
        ensures
            text@ == self@.message(),
    {
        match self {
            TmuxError::Program(e) => e.clone(),
            TmuxError::Launch(e) => e.clone(),
            TmuxError::Refused { part, stderr } => {
                let name: &str = match part {
                    Part::NewWindow => "new-window",
                    Part::JoinPane => "join-pane",
                    Part::ListPanes => "list-panes",
                    Part::Restart => "restart",
                    Part::Swap => "swap",
                };
                let mut text: String = concat("tmux ", name);
                text.append(" failed: ");
                text.append(stderr.as_str());
                text
            },
            TmuxError::NotUtf8(e) => e.clone(),
            TmuxError::NoPanes(pane) => concat(
                "no panes found in window containing ",
                pane.as_str(),
            ),
            TmuxError::NotInTmux => "not running inside tmux".to_owned(),
            TmuxError::UnexpectedOutput(s) => concat(
                "unexpected tmux display-message output: ",
                s.as_str(),
            ),
            TmuxError::StatusFile(e) => concat("cannot read status file: ", e.as_str()),
            TmuxError::NotRunning => "process is not running".to_owned(),
            TmuxError::Kill(e) => concat("kill failed: ", e.as_str()),
            TmuxError::KillExited(s) => concat("kill exited with ", s.as_str()),
        }
    }
}

/// Where an operation stands.
#[derive(Debug, PartialEq, Eq)]
pub enum Step<T> {
    /// This is wanted next.
    Ask(Request),
    /// The operation has ended.
    Done(Result<T, TmuxError>),
}

/// What a `Step` holds.
#[verifier::ext_equal]
pub enum StepView<V> {
    Ask(RequestView),
    Done(Result<V, TmuxErrorView>),
}

impl<T: View> View for Step<T> {
    type V = StepView<T::V>;

    open spec fn view(&self) -> StepView<T::V> {
        match self {
            Step::Ask(request) => StepView::Ask(request@),
            Step::Done(Ok(value)) => StepView::Done(Ok(value@)),
            Step::Done(Err(error)) => StepView::Done(Err(error@)),
        }
    }
}

/// The tmux command with these arguments.
pub open spec fn tmux_request(args: Seq<Seq<char>>, captured: bool) -> RequestView {
    RequestView::Run(InvocationView { program: "tmux"@, args, captured })
}

/// The tmux command with these arguments.
pub fn tmux(args: Vec<String>, captured: bool) -> (request: Request)
    ensures
        request@ == tmux_request(crate::text::texts(args@), captured),
{
    Request::Run(Invocation { program: "tmux".to_owned(), args, captured })
}

/// Appends `arg` to a list of arguments.
pub fn add_arg(args: &mut Vec<String>, arg: &str)
    ensures
        crate::text::texts(final(args)@) == crate::text::texts(old(args)@).push(arg@),
{
    args.push(arg.to_owned());
}

/// The text that `String::from_utf8_lossy` makes of `bytes`.
pub uninterp spec fn lossy_text(bytes: Seq<u8>) -> Seq<char>;

/// The words in which the error of `String::from_utf8` for `bytes` reads.
pub uninterp spec fn utf8_error_text(bytes: Seq<u8>) -> Seq<char>;

/// `String::from_utf8`: the text that `bytes` encode where they are UTF-8, and
/// else the error in words. That error text is a function of the bytes; what
/// it reads like is left unsaid.
#[verifier::external_body]
pub(crate) fn decode(bytes: &Vec<u8>) -> (text: Result<String, String>)
    ensures
        match text {
            Ok(s) => valid_utf8(bytes@) && s@ == decode_utf8(bytes@),
            Err(e) => !valid_utf8(bytes@) && e@ == utf8_error_text(bytes@),
        },
{
    String::from_utf8(bytes.clone()).map_err(|e| e.to_string())
}

/// `String::from_utf8_lossy`: the text that `bytes` encode where they are
/// UTF-8; of other bytes it is said only that the text is a function of them.
#[verifier::external_body]
pub(crate) fn decode_lossy(bytes: &Vec<u8>) -> (text: String)
    ensures
        text@ == lossy_text(bytes@),
        valid_utf8(bytes@) ==> text@ == decode_utf8(bytes@),
{
    String::from_utf8_lossy(bytes).into_owned()
}

} // verus!
