//! The wrapper around one process: it runs the command, tells of it in the
//! status file, keeps the pane open after the exit, and runs the command again
//! on request.

use crate::command;
use crate::number;
use vstd::prelude::*;
use vstd::string::*;

verus! {

/// What the status file holds while the process `pid` runs.
pub open spec fn running_text(pid: u32) -> Seq<char> {
    "running:"@ + number::decimal(pid as nat)
}

/// What the status file holds once the process has ended with `code`.
pub open spec fn dead_text(code: int) -> Seq<char> {
    "dead:"@ + number::signed_decimal(code)
}

/// The exit code, which is -1 where a signal ended the process.
pub open spec fn exit_code(code: Option<i32>) -> int {
    match code {
        Some(c) => c as int,
        None => -1,
    }
}

/// How an exit is called.
pub open spec fn exit_words(code: int) -> Seq<char> {
    if code == 0 {
        "success"@
    } else {
        "code "@ + number::signed_decimal(code)
    }
}

/// What is printed when the process has ended: the exit, and on the next line
/// the request for a key.
pub open spec fn exit_notice(code: int) -> Seq<char> {
    "\n\x1b[31m[process exited: "@ + exit_words(code) + "]\x1b[0m\n"@
        + "\x1b[90mpress 's' to restart: \x1b[0m"@
}

/// What the wrapper is doing.
#[derive(Clone, Copy, Debug, PartialEq, Eq, Structural)]
pub enum Phase {
    /// It is about to start the command.
    Starting,
    /// The command is running.
    Watching,
    /// It waits for the key that starts the command again.
    Prompting,
    /// It has lost the process, and only keeps the pane open.
    Idle,
    /// It has ended.
    Ended,
}

/// What happens to the wrapper.
#[derive(Debug, PartialEq, Eq)]
pub enum Happening {
    /// The command was started as this process.
    Started(u32),
    /// The command could not be started, or that could not be written down.
    NotStarted,
    /// The process is still running.
    StillRunning,
    /// The process has ended, with an exit code unless a signal ended it.
    Exited(Option<i32>),
    /// The process cannot be watched, for the reason given.
    Lost(String),
    /// This byte was typed, or none is to be had.
    Typed(Option<u8>),
}

/// What the wrapper does next.
#[derive(Debug, PartialEq, Eq)]
pub enum Effect {
    /// Start the command.
    Start,
    /// Write the status file; `vital` if the wrapper ends where that fails.
    WriteStatus { text: String, vital: bool },
    /// Print.
    Print(String),
    /// Print to the error output, and a line feed.
    Complain(String),
    /// Become the terminal's foreground process group again.
    TakeTerminal,
    /// Wait a tenth of a second.
    Pause,
    /// Look whether the process has ended.
    Watch,
    /// Read a key.
    ReadKey,
    /// Wait for ever.
    Sleep,
}

/// What an `Effect` holds.
#[verifier::ext_equal]
pub enum EffectView {
    Start,
    WriteStatus { text: Seq<char>, vital: bool },
    Print(Seq<char>),
    Complain(Seq<char>),
    TakeTerminal,
    Pause,
    Watch,
    ReadKey,
    Sleep,
}

impl View for Effect {
    type V = EffectView;

    open spec fn view(&self) -> EffectView {
        match self {
            Effect::Start => EffectView::Start,
            Effect::WriteStatus { text, vital } => EffectView::WriteStatus {
                text: text@,
                vital: *vital,
            },
            Effect::Print(s) => EffectView::Print(s@),
            Effect::Complain(s) => EffectView::Complain(s@),
            Effect::TakeTerminal => EffectView::TakeTerminal,
            Effect::Pause => EffectView::Pause,
            Effect::Watch => EffectView::Watch,
            Effect::ReadKey => EffectView::ReadKey,
            Effect::Sleep => EffectView::Sleep,
        }
    }
}

/// What each effect of a list holds.
pub open spec fn effect_views(effects: Seq<Effect>) -> Seq<EffectView> {
    Seq::new(effects.len(), |i: int| effects[i]@)
}

/// Whether a byte is the key that starts the command again.
pub open spec fn is_restart_key(byte: u8) -> bool {
    byte == 's' as u8 || byte == 'S' as u8
}

/// The phase after a happening, and what is done about it, in order. What does
/// not fit the phase changes nothing.
pub open spec fn reaction(phase: Phase, happening: Happening) -> (Phase, Seq<EffectView>) {
    match (phase, happening) {
        (Phase::Starting, Happening::Started(pid)) => (
            Phase::Watching,
            seq![
                EffectView::WriteStatus { text: running_text(pid), vital: true },
                EffectView::Watch,
            ],
        ),
        (Phase::Starting, Happening::NotStarted) => (Phase::Ended, seq![]),
        (Phase::Watching, Happening::NotStarted) => (Phase::Ended, seq![]),
        (Phase::Watching, Happening::StillRunning) => (
            Phase::Watching,
            seq![EffectView::Pause, EffectView::Watch],
        ),
        (Phase::Watching, Happening::Exited(code)) => (
            Phase::Prompting,
            seq![
                EffectView::WriteStatus { text: dead_text(exit_code(code)), vital: false },
                EffectView::Print(exit_notice(exit_code(code))),
                EffectView::TakeTerminal,
                EffectView::ReadKey,
            ],
        ),
        (Phase::Watching, Happening::Lost(reason)) => (
            Phase::Idle,
            seq![
                EffectView::WriteStatus { text: dead_text(-1), vital: false },
                EffectView::Complain("[wrapper error: "@ + reason@ + "]"@),
                EffectView::Sleep,
            ],
        ),
        (Phase::Prompting, Happening::Typed(Some(byte))) => if is_restart_key(byte) {
            (
                Phase::Starting,
                seq![EffectView::Print("\n[restarting...]\n"@), EffectView::Start],
            )
        } else {
            (Phase::Prompting, seq![EffectView::ReadKey])
        },
        (Phase::Prompting, Happening::Typed(None)) => (
            Phase::Prompting,
            seq![EffectView::Pause, EffectView::ReadKey],
        ),
        _ => (phase, seq![]),
    }
}

/// What the status file holds while the process `pid` runs.
pub fn running_status(pid: u32) -> (text: String)
    ensures
        text@ == running_text(pid),
{
    command::concat("running:", number::decimal_text(pid).as_str())
}

/// What the status file holds once the process has ended with `code`.
pub fn dead_status(code: i32) -> (text: String)
    ensures
        text@ == dead_text(code as int),
{
    command::concat("dead:", number::signed_decimal_text(code).as_str())
}

/// What is printed when the process has ended.
pub fn exit_message(code: i32) -> (text: String)
    ensures
        text@ == exit_notice(code as int),
{
    let words: String = if code == 0 {
        "success".to_owned()
    } else {
        command::concat("code ", number::signed_decimal_text(code).as_str())
    };
    let mut text: String = command::concat("\n\x1b[31m[process exited: ", words.as_str());
    text.append("]\x1b[0m\n");
    text.append("\x1b[90mpress 's' to restart: \x1b[0m");
    text
}

/// React to a happening: the next phase, and what is to be done, in order.
pub fn react(phase: Phase, happening: &Happening) -> (next: (Phase, Vec<Effect>))
    ensures
        (next.0, effect_views(next.1@)) == reaction(phase, *happening),
{
    let mut effects: Vec<Effect> = Vec::new();
    assert(effect_views(effects@) == Seq::<EffectView>::empty());
    match (phase, happening) {
        (Phase::Starting, Happening::Started(pid)) => {
            add_effect(
                &mut effects,
                Effect::WriteStatus { text: running_status(*pid), vital: true },
            );
            add_effect(&mut effects, Effect::Watch);
            (Phase::Watching, effects)
        },
        (Phase::Starting, Happening::NotStarted) => (Phase::Ended, effects),
        (Phase::Watching, Happening::NotStarted) => (Phase::Ended, effects),
        (Phase::Watching, Happening::StillRunning) => {
            add_effect(&mut effects, Effect::Pause);
            add_effect(&mut effects, Effect::Watch);
            (Phase::Watching, effects)
        },
        (Phase::Watching, Happening::Exited(code)) => {
            let code: i32 = match code {
                Some(c) => *c,
                None => -1,
            };
            add_effect(
                &mut effects,
                Effect::WriteStatus { text: dead_status(code), vital: false },
            );
            add_effect(&mut effects, Effect::Print(exit_message(code)));
            add_effect(&mut effects, Effect::TakeTerminal);
            add_effect(&mut effects, Effect::ReadKey);
            (Phase::Prompting, effects)
        },
        (Phase::Watching, Happening::Lost(reason)) => {
            add_effect(
                &mut effects,
                Effect::WriteStatus { text: dead_status(-1), vital: false },
            );
            let mut text: String = command::concat("[wrapper error: ", reason.as_str());
            text.append("]");
            add_effect(&mut effects, Effect::Complain(text));
            add_effect(&mut effects, Effect::Sleep);
            (Phase::Idle, effects)
        },
        (Phase::Prompting, Happening::Typed(Some(byte))) => if *byte == 's' as u8 || *byte == 'S' as u8 {
            add_effect(&mut effects, Effect::Print("\n[restarting...]\n".to_owned()));
            add_effect(&mut effects, Effect::Start);
            (Phase::Starting, effects)
        } else {
            add_effect(&mut effects, Effect::ReadKey);
            (Phase::Prompting, effects)
        },
        (Phase::Prompting, Happening::Typed(None)) => {
            add_effect(&mut effects, Effect::Pause);
            add_effect(&mut effects, Effect::ReadKey);
            (Phase::Prompting, effects)
        },
        _ => (phase, effects),
    }
}

/// Appends an effect.
fn add_effect(effects: &mut Vec<Effect>, effect: Effect)
    ensures
        effect_views(final(effects)@) == effect_views(old(effects)@).push(effect@),
{
    effects.push(effect);
}

} // verus!
