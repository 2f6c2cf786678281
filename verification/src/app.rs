//! The processes, which of them is selected and shown, and what is done to
//! them.

use crate::command;
use crate::command::{Reply, Request, RequestView, Step, StepView, TmuxError};
use crate::text;
use crate::tmux;
use crate::tmux::{SessionView, TmuxSession};
use vstd::prelude::*;
use vstd::string::*;

verus! {

#[derive(Clone, Copy, Debug, PartialEq, Eq, Structural)]
pub enum ProcStatus {
    Running,
    Dead,
}

pub struct Proc {
    pub name: String,
    pub cmd: String,
    pub status: ProcStatus,
    /// Whether this proc's pane is currently joined into the right slot.
    pub is_shown: bool,
}

/// What a `Proc` holds.
#[verifier::ext_equal]
pub struct ProcView {
    pub name: Seq<char>,
    pub cmd: Seq<char>,
    pub status: ProcStatus,
    pub is_shown: bool,
}

impl View for Proc {
    type V = ProcView;

    open spec fn view(&self) -> ProcView {
        ProcView {
            name: self.name@,
            cmd: self.cmd@,
            status: self.status,
            is_shown: self.is_shown,
        }
    }
}

/// What each process of a list holds.
pub open spec fn proc_views(procs: Seq<Proc>) -> Seq<ProcView> {
    Seq::new(procs.len(), |i: int| procs[i]@)
}

pub struct App {
    pub procs: Vec<Proc>,
    pub selected: usize,
    pub bg_session: TmuxSession,
    pub left_pane_id: String,
    pub right_pane_id: Option<String>,
    pub should_quit: bool,
}

/// What an `App` holds.
#[verifier::ext_equal]
pub struct AppView {
    pub procs: Seq<ProcView>,
    pub selected: nat,
    pub session: SessionView,
    pub left: Seq<char>,
    pub right: Option<Seq<char>>,
    pub should_quit: bool,
}

/// What an optional text holds.
pub open spec fn optional_text(s: Option<String>) -> Option<Seq<char>> {
    match s {
        Some(t) => Some(t@),
        None => None,
    }
}

impl View for App {
    type V = AppView;

    open spec fn view(&self) -> AppView {
        AppView {
            procs: proc_views(self.procs@),
            selected: self.selected as nat,
            session: self.bg_session@,
            left: self.left_pane_id@,
            right: optional_text(self.right_pane_id),
            should_quit: self.should_quit,
        }
    }
}

/// The columns that the left pane keeps when another is joined.
pub const LEFT_COLS: u16 = 50;

/// The first shown process, or the number of processes.
pub open spec fn first_shown(procs: Seq<ProcView>) -> nat
    decreases procs.len(),
{
    if procs.len() == 0 || procs[0].is_shown {
        0
    } else {
        1 + first_shown(procs.skip(1))
    }
}

/// The first process with this name, or the number of processes.
pub open spec fn first_named(procs: Seq<ProcView>, name: Seq<char>) -> nat
    decreases procs.len(),
{
    if procs.len() == 0 || procs[0].name == name {
        0
    } else {
        1 + first_named(procs.skip(1), name)
    }
}

/// `procs` with the shown mark of process `i`, if there is one, set to `shown`.
pub open spec fn with_shown(procs: Seq<ProcView>, i: nat, shown: bool) -> Seq<ProcView> {
    if i < procs.len() {
        procs.update(i as int, ProcView { is_shown: shown, ..procs[i as int] })
    } else {
        procs
    }
}

/// `procs` with the status of process `i`, if there is one, set to `status`.
pub open spec fn with_status(procs: Seq<ProcView>, i: nat, status: ProcStatus) -> Seq<ProcView> {
    if i < procs.len() {
        procs.update(i as int, ProcView { status, ..procs[i as int] })
    } else {
        procs
    }
}

/// The status that the content of a status file tells of.
pub open spec fn status_in(content: Seq<char>) -> ProcStatus {
    if "running"@.is_prefix_of(text::trimmed(content)) {
        ProcStatus::Running
    } else {
        ProcStatus::Dead
    }
}

/// The status that the reading of a status file tells of; a file that cannot be
/// read counts as an empty one.
pub open spec fn told_status(reply: Reply) -> ProcStatus {
    match command::given_text(reply) {
        Ok(content) => status_in(content),
        Err(_) => status_in(seq![]),
    }
}

/// Whether no name occurs twice.
pub open spec fn distinct_names(procs: Seq<ProcView>) -> bool {
    forall|i: int, j: int|
        0 <= i < j < procs.len() ==> (#[trigger] procs[i]).name != (#[trigger] procs[j]).name
}

/// Whether no two processes are shown.
pub open spec fn at_most_one_shown(procs: Seq<ProcView>) -> bool {
    forall|i: int, j: int|
        0 <= i < j < procs.len() ==> !((#[trigger] procs[i]).is_shown && (
        #[trigger] procs[j]).is_shown)
}

impl AppView {
    /// A process is selected, no name occurs twice, and at most one process is
    /// shown.
    pub open spec fn wf(self) -> bool {
        &&& self.selected < self.procs.len()
        &&& distinct_names(self.procs)
        &&& at_most_one_shown(self.procs)
    }

    /// Where a process is shown, it is shown in a known pane.
    pub open spec fn slot_known(self) -> bool {
        forall|i: int|
            0 <= i < self.procs.len() && (#[trigger] self.procs[i]).is_shown ==> self.right is Some
    }

    /// The state with the selection one up, if there is one.
    pub open spec fn moved_up(self) -> AppView {
        if self.selected > 0 {
            AppView { selected: (self.selected - 1) as nat, ..self }
        } else {
            self
        }
    }

    /// The state with the selection one down, if there is one.
    pub open spec fn moved_down(self) -> AppView {
        if self.selected + 1 < self.procs.len() {
            AppView { selected: self.selected + 1, ..self }
        } else {
            self
        }
    }

    /// Whether a process of this name is shown.
    pub open spec fn shows(self, name: Seq<char>) -> bool {
        exists|i: int|
            0 <= i < self.procs.len() && (#[trigger] self.procs[i]).is_shown && self.procs[i].name
                == name
    }

    /// The state while another process is brought in: what was shown is shown
    /// no longer.
    pub open spec fn vacated(self) -> AppView {
        let shown = first_shown(self.procs);
        if shown < self.procs.len() {
            AppView { procs: with_shown(self.procs, shown, false), right: None, ..self }
        } else {
            self
        }
    }

    /// The state once the process `name` is shown in the pane `right`.
    pub open spec fn showing(self, name: Seq<char>, right: Seq<char>) -> AppView {
        let vacated = self.vacated();
        AppView {
            procs: with_shown(vacated.procs, first_named(vacated.procs, name), true),
            right: Some(right),
            ..vacated
        }
    }

    /// How bringing the pane of `name` in goes on after `replies`: the shown
    /// pane is swapped out if it is there and alive, and else the new one is
    /// joined.
    pub open spec fn bring_step(self, name: Seq<char>, replies: Seq<Reply>) -> StepView<Seq<char>> {
        let window = self.session.window_id(name);
        let shown = first_shown(self.procs);
        match self.right {
            Some(right) if shown < self.procs.len() => match tmux::alive_step(right, replies) {
                StepView::Ask(request) => StepView::Ask(request),
                StepView::Done(Ok(true)) => tmux::swap_step(
                    right,
                    self.session.session_name,
                    self.session.window_name(self.procs[shown as int].name),
                    window,
                    self.left,
                    Some(LEFT_COLS),
                    replies.skip(1),
                ),
                StepView::Done(_) => tmux::join_step(
                    window,
                    self.left,
                    Some(LEFT_COLS),
                    replies.skip(1),
                ),
            },
            _ => tmux::join_step(window, self.left, Some(LEFT_COLS), replies),
        }
    }

    /// How showing the process `name` goes on after `replies`, and the state
    /// then.
    pub open spec fn show_step(self, name: Seq<char>, replies: Seq<Reply>) -> (
        StepView<()>,
        AppView,
    ) {
        if self.shows(name) {
            (StepView::Done(Ok(())), self)
        } else {
            match self.bring_step(name, replies) {
                StepView::Ask(request) => (StepView::Ask(request), self),
                StepView::Done(Ok(right)) => (StepView::Done(Ok(())), self.showing(name, right)),
                StepView::Done(Err(e)) => (StepView::Done(Err(e)), self.vacated()),
            }
        }
    }

    /// The state with the status of the selected process set.
    pub open spec fn with_selected_status(self, status: ProcStatus) -> AppView {
        AppView { procs: with_status(self.procs, self.selected, status), ..self }
    }

    /// How restarting the selected process, shown in the pane `right`, goes on
    /// after `replies`, and the state then.
    pub open spec fn restart_shown_step(self, right: Seq<char>, replies: Seq<Reply>) -> (
        StepView<()>,
        AppView,
    ) {
        let chosen = self.procs[self.selected as int];
        let vacant = AppView { right: None, ..self };
        match self.session.wrapper_step(chosen.name, chosen.cmd, replies) {
            StepView::Ask(request) => (StepView::Ask(request), self),
            StepView::Done(Err(e)) => (StepView::Done(Err(e)), vacant),
            StepView::Done(Ok(wrapper_cmd)) => match tmux::restart_step(
                right,
                self.session.session_name,
                self.session.window_name(chosen.name),
                wrapper_cmd,
                self.left,
                Some(LEFT_COLS),
                replies.skip(1),
            ) {
                StepView::Ask(request) => (StepView::Ask(request), self),
                StepView::Done(Ok(id)) => (
                    StepView::Done(Ok(())),
                    (AppView { right: Some(id), ..self }).with_selected_status(
                        ProcStatus::Running,
                    ),
                ),
                StepView::Done(Err(e)) => (
                    StepView::Done(Err(e)),
                    AppView { procs: with_shown(self.procs, self.selected, false), ..vacant },
                ),
            },
        }
    }

    /// How restarting the selected process in the background goes on after
    /// `replies`, and the state then: its window is killed, come what may, and
    /// then it is started in a new one, where it is not shown.
    pub open spec fn restart_hidden_step(self, replies: Seq<Reply>) -> (StepView<()>, AppView) {
        let chosen = self.procs[self.selected as int];
        match tmux::plain_step(
            seq!["kill-window"@, "-t"@, self.session.window_id(chosen.name)],
            replies,
        ) {
            StepView::Ask(request) => (StepView::Ask(request), self),
            StepView::Done(_) => match self.session.start_step(
                chosen.name,
                chosen.cmd,
                replies.skip(1),
            ) {
                StepView::Ask(request) => (StepView::Ask(request), self),
                StepView::Done(Ok(_)) => (
                    StepView::Done(Ok(())),
                    (AppView {
                        procs: with_shown(self.procs, self.selected, false),
                        ..self
                    }).with_selected_status(ProcStatus::Running),
                ),
                StepView::Done(Err(e)) => (StepView::Done(Err(e)), self),
            },
        }
    }

    /// How restarting the selected process, dead or not, goes on after
    /// `replies`, and the state then: in its pane where it is shown in a known
    /// one, and in the background otherwise.
    pub open spec fn force_restart_step(self, replies: Seq<Reply>) -> (StepView<()>, AppView) {
        match self.right {
            Some(right) if self.procs[self.selected as int].is_shown => self.restart_shown_step(
                right,
                replies,
            ),
            _ => self.restart_hidden_step(replies),
        }
    }

    /// How restarting the selected process if it is dead goes on after
    /// `replies`, and the state then.
    pub open spec fn restart_step(self, replies: Seq<Reply>) -> (StepView<()>, AppView) {
        if self.procs[self.selected as int].status == ProcStatus::Dead {
            self.force_restart_step(replies)
        } else {
            (StepView::Done(Ok(())), self)
        }
    }

    /// How killing the selected process's child goes on after `replies`: how
    /// it ends does not matter.
    pub open spec fn kill_step(self, replies: Seq<Reply>) -> StepView<()> {
        match tmux::kill_child_step(
            self.session.status_file(self.procs[self.selected as int].name),
            replies,
        ) {
            StepView::Ask(request) => StepView::Ask(request),
            StepView::Done(_) => StepView::Done(Ok(())),
        }
    }

    /// How moving the focus to the right pane, if there is one, goes on after
    /// `replies`: how it ends does not matter.
    pub open spec fn focus_step(self, replies: Seq<Reply>) -> StepView<()> {
        match self.right {
            Some(right) => match tmux::plain_step(seq!["select-pane"@, "-t"@, right], replies) {
                StepView::Ask(request) => StepView::Ask(request),
                StepView::Done(_) => StepView::Done(Ok(())),
            },
            None => StepView::Done(Ok(())),
        }
    }

    /// How stopping everything goes on after `replies`, from process `i` on:
    /// the children are killed, and then the right pane; how that ends does not
    /// matter.
    pub open spec fn stop_step(self, i: nat, replies: Seq<Reply>) -> StepView<()>
        decreases self.procs.len() - i,
    {
        if i < self.procs.len() {
            match tmux::kill_child_step(
                self.session.status_file(self.procs[i as int].name),
                replies,
            ) {
                StepView::Ask(request) => StepView::Ask(request),
                StepView::Done(_) => self.stop_step(
                    i + 1,
                    replies.skip(tmux::kill_child_replies(replies) as int),
                ),
            }
        } else {
            match self.right {
                Some(right) => match tmux::plain_step(
                    seq!["kill-pane"@, "-t"@, right],
                    replies,
                ) {
                    StepView::Ask(request) => StepView::Ask(request),
                    StepView::Done(_) => StepView::Done(Ok(())),
                },
                None => StepView::Done(Ok(())),
            }
        }
    }

    /// How many replies stopping everything from process `i` on takes.
    pub open spec fn stop_replies(self, i: nat, replies: Seq<Reply>) -> nat
        decreases self.procs.len() - i,
    {
        if i < self.procs.len() {
            let taken = tmux::kill_child_replies(replies);
            taken + self.stop_replies(i + 1, replies.skip(taken as int))
        } else if self.right is Some {
            1
        } else {
            0
        }
    }

    /// How shutting down goes on after `replies`: everything is stopped, and
    /// only then are the windows of this instance cleaned up, with the replies
    /// that are left.
    pub open spec fn shut_down_step(self, replies: Seq<Reply>) -> StepView<()> {
        match self.stop_step(0, replies) {
            StepView::Ask(request) => StepView::Ask(request),
            StepView::Done(_) => self.session.cleanup_step(
                replies.skip(self.stop_replies(0, replies) as int),
            ),
        }
    }

    /// The state with the statuses that the status files tell of, where
    /// `replies` answer the reading of each.
    pub open spec fn refreshed(self, replies: Seq<Reply>) -> AppView {
        AppView {
            procs: Seq::new(
                self.procs.len(),
                |i: int| ProcView { status: told_status(replies[i]), ..self.procs[i] },
            ),
            ..self
        }
    }

    /// How looking at the status files goes on after `replies`, and the state
    /// then: they are read one after the other.
    pub open spec fn refresh_step(self, replies: Seq<Reply>) -> (StepView<()>, AppView) {
        if replies.len() < self.procs.len() {
            (
                StepView::Ask(
                    RequestView::ReadFile(
                        self.session.status_file(self.procs[replies.len() as int].name),
                    ),
                ),
                self,
            )
        } else {
            (StepView::Done(Ok(())), self.refreshed(replies))
        }
    }
}

/// How starting `procs` one after the other goes on after `replies`; the first
/// that fails ends it.
pub open spec fn start_all_step(
    session: SessionView,
    procs: Seq<ProcView>,
    replies: Seq<Reply>,
) -> StepView<()>
    decreases procs.len(),
{
    if procs.len() == 0 {
        StepView::Done(Ok(()))
    } else {
        match session.start_step(procs[0].name, procs[0].cmd, replies) {
            StepView::Ask(request) => StepView::Ask(request),
            StepView::Done(Err(e)) => StepView::Done(Err(e)),
            StepView::Done(Ok(_)) => start_all_step(session, procs.skip(1), replies.skip(2)),
        }
    }
}

/// Start the processes one after the other.
pub fn start_all(session: &TmuxSession, procs: &Vec<Proc>, replies: &[Reply]) -> (step: Step<()>)
    ensures
        step@ == start_all_step(session@, proc_views(procs@), replies@),
{
    let ghost all = proc_views(procs@);
    let mut i: usize = 0;
    let mut rest: &[Reply] = replies;
    assert(all.skip(0) == all);
    while i < procs.len()
        invariant
            i <= procs.len(),
            all == proc_views(procs@),
            start_all_step(session@, all, replies@) == start_all_step(
                session@,
                all.skip(i as int),
                rest@,
            ),
        decreases procs.len() - i,
    {
        assert(all.skip(i as int).skip(1) == all.skip(i + 1));
        match session.start_proc(procs[i].name.as_str(), procs[i].cmd.as_str(), rest) {
            Step::Ask(request) => return Step::Ask(request),
            Step::Done(Err(e)) => return Step::Done(Err(e)),
            Step::Done(Ok(_)) => {},
        }
        let later: &[Reply] = vstd::slice::slice_subrange(rest, 2, rest.len());
        rest = later;
        i += 1;
    }
    Step::Done(Ok(()))
}

impl App {
    pub fn new(procs: Vec<Proc>, bg_session: TmuxSession, left_pane_id: String) -> (app: Self)
        ensures
            app@ == (AppView {
                procs: proc_views(procs@),
                selected: 0,
                session: bg_session@,
                left: left_pane_id@,
                right: None,
                should_quit: false,
            }),
    {
        App {
            procs,
            selected: 0,
            bg_session,
            left_pane_id,
            right_pane_id: None,
            should_quit: false,
        }
    }

    pub fn move_up(&mut self)
        ensures
            final(self)@ == old(self)@.moved_up(),
    {
        if self.selected > 0 {
            self.selected -= 1;
        }
    }

    pub fn move_down(&mut self)
        ensures
            final(self)@ == old(self)@.moved_down(),
    {
        if self.procs.len() > 0 && self.selected < self.procs.len() - 1 {
            self.selected += 1;
        }
    }

    /// Whether a process of this name is shown.
    pub fn is_showing(&self, name: &str) -> (answer: bool)
        ensures
            answer == self@.shows(name@),
    {
        let mut i: usize = 0;
        while i < self.procs.len()
            invariant
                i <= self.procs.len(),
                forall|j: int|
                    0 <= j < i ==> !((#[trigger] self@.procs[j]).is_shown && self@.procs[j].name
                        == name@),
            decreases self.procs.len() - i,
        {
            if self.procs[i].is_shown && text::same(self.procs[i].name.as_str(), name) {
                assert(self@.procs[i as int].is_shown);
                return true;
            }
            i += 1;
        }
        false
    }

    /// The first shown process, or the number of processes.
    fn shown_index(&self) -> (index: usize)
        ensures
            index == first_shown(self@.procs),
            index <= self.procs.len(),
    {
        let mut i: usize = 0;
        assert(self@.procs.skip(0) == self@.procs);
        while i < self.procs.len() && !self.procs[i].is_shown
            invariant
                i <= self.procs.len(),
                first_shown(self@.procs) == i + first_shown(self@.procs.skip(i as int)),
            decreases self.procs.len() - i,
        {
            assert(self@.procs.skip(i as int).skip(1) == self@.procs.skip(i + 1));
            i += 1;
        }
        i
    }

    /// The first process with this name, or the number of processes.
    fn named_index(&self, name: &str) -> (index: usize)
        ensures
            index == first_named(self@.procs, name@),
            index <= self.procs.len(),
    {
        let mut i: usize = 0;
        assert(self@.procs.skip(0) == self@.procs);
        while i < self.procs.len() && !text::same(self.procs[i].name.as_str(), name)
            invariant
                i <= self.procs.len(),
                first_named(self@.procs, name@) == i + first_named(
                    self@.procs.skip(i as int),
                    name@,
                ),
            decreases self.procs.len() - i,
        {
            assert(self@.procs.skip(i as int).skip(1) == self@.procs.skip(i + 1));
            i += 1;
        }
        i
    }

    /// Bring the pane of the named process to the right.
    fn bring(&self, name: &str, replies: &[Reply]) -> (step: Step<String>)
        ensures
            step@ == self@.bring_step(name@, replies@),
    {
        let window: String = self.bg_session.window_id(name);
        let shown: usize = self.shown_index();
        let right: &String = match &self.right_pane_id {
            Some(right) if shown < self.procs.len() => right,
            _ => return tmux::join_pane_right(
                window.as_str(),
                self.left_pane_id.as_str(),
                Some(LEFT_COLS),
                replies,
            ),
        };
        let alive: bool = match tmux::is_pane_alive(right.as_str(), replies) {
            Step::Ask(request) => return Step::Ask(request),
            Step::Done(Ok(alive)) => alive,
            Step::Done(Err(_)) => false,
        };
        let later: &[Reply] = vstd::slice::slice_subrange(replies, 1, replies.len());
        if alive {
            let old_window: String = self.bg_session.window_name_for(
                self.procs[shown].name.as_str(),
            );
            tmux::swap_proc_pane(
                right.as_str(),
                self.bg_session.session(),
                old_window.as_str(),
                window.as_str(),
                self.left_pane_id.as_str(),
                Some(LEFT_COLS),
                later,
            )
        } else {
            tmux::join_pane_right(
                window.as_str(),
                self.left_pane_id.as_str(),
                Some(LEFT_COLS),
                later,
            )
        }
    }

    /// Bring the named process into the right pane.
    pub fn show_proc(&mut self, name: &str, replies: &[Reply]) -> (step: Step<()>)
        ensures
            (step@, final(self)@) == old(self)@.show_step(name@, replies@),
    {
        if self.is_showing(name) {
            return Step::Done(Ok(()));
        }
        let outcome: Result<String, TmuxError> = match self.bring(name, replies) {
            Step::Ask(request) => return Step::Ask(request),
            Step::Done(outcome) => outcome,
        };
        let shown: usize = self.shown_index();
        if shown < self.procs.len() {
            self.procs[shown].is_shown = false;
            self.right_pane_id = None;
        }
        assert(self@ == old(self)@.vacated());
        match outcome {
            Ok(right) => {
                let named: usize = self.named_index(name);
                self.right_pane_id = Some(right);
                if named < self.procs.len() {
                    self.procs[named].is_shown = true;
                }
                Step::Done(Ok(()))
            },
            Err(e) => Step::Done(Err(e)),
        }
    }

    /// Show the currently selected process in the right pane.
    pub fn show_selected(&mut self, replies: &[Reply]) -> (step: Step<()>)
        requires
            old(self)@.selected < old(self)@.procs.len(),
        ensures
            (step@, final(self)@) == old(self)@.show_step(
                old(self)@.procs[old(self)@.selected as int].name,
                replies@,
            ),
    {
        let name: String = self.procs[self.selected].name.clone();
        self.show_proc(name.as_str(), replies)
    }

    /// Restart the selected process, which is shown in the pane `right`.
    fn restart_shown(&mut self, right: &str, replies: &[Reply]) -> (step: Step<()>)
        requires
            old(self)@.selected < old(self)@.procs.len(),
        ensures
            (step@, final(self)@) == old(self)@.restart_shown_step(right@, replies@),
    {
        let idx: usize = self.selected;
        let name: String = self.procs[idx].name.clone();
        let cmd: String = self.procs[idx].cmd.clone();
        let window_name: String = self.bg_session.window_name_for(name.as_str());
        let wrapper_cmd: String = match self.bg_session.wrapper_cmd_for(
            name.as_str(),
            cmd.as_str(),
            replies,
        ) {
            Step::Ask(request) => return Step::Ask(request),
            Step::Done(Ok(line)) => line,
            Step::Done(Err(e)) => {
                self.right_pane_id = None;
                return Step::Done(Err(e));
            },
        };
        let later: &[Reply] = vstd::slice::slice_subrange(replies, 1, replies.len());
        match tmux::restart_shown_proc_pane(
            right,
            self.bg_session.session(),
            window_name.as_str(),
            wrapper_cmd.as_str(),
            self.left_pane_id.as_str(),
            Some(LEFT_COLS),
            later,
        ) {
            Step::Ask(request) => Step::Ask(request),
            Step::Done(Ok(id)) => {
                self.right_pane_id = Some(id);
                self.procs[idx].status = ProcStatus::Running;
                assert(self@.procs == with_status(
                    old(self)@.procs,
                    idx as nat,
                    ProcStatus::Running,
                ));
                Step::Done(Ok(()))
            },
            Step::Done(Err(e)) => {
                self.right_pane_id = None;
                self.procs[idx].is_shown = false;
                Step::Done(Err(e))
            },
        }
    }

    /// Restart the selected process in the background.
    fn restart_hidden(&mut self, replies: &[Reply]) -> (step: Step<()>)
        requires
            old(self)@.selected < old(self)@.procs.len(),
        ensures
            (step@, final(self)@) == old(self)@.restart_hidden_step(replies@),
    {
        let idx: usize = self.selected;
        let name: String = self.procs[idx].name.clone();
        let cmd: String = self.procs[idx].cmd.clone();
        let window: String = self.bg_session.window_id(name.as_str());
        match tmux::kill_window(window.as_str(), replies) {
            Step::Ask(request) => return Step::Ask(request),
            Step::Done(_) => {},
        }
        let later: &[Reply] = vstd::slice::slice_subrange(replies, 1, replies.len());
        match self.bg_session.start_proc(name.as_str(), cmd.as_str(), later) {
            Step::Ask(request) => Step::Ask(request),
            Step::Done(Ok(_)) => {
                self.procs[idx].is_shown = false;
                self.procs[idx].status = ProcStatus::Running;
                assert(self@.procs == with_status(
                    with_shown(old(self)@.procs, idx as nat, false),
                    idx as nat,
                    ProcStatus::Running,
                ));
                Step::Done(Ok(()))
            },
            Step::Done(Err(e)) => Step::Done(Err(e)),
        }
    }

    /// Restart the selected process, dead or not. Where it is marked as shown
    /// and no right pane is known, it is started in the background, and the
    /// mark goes.
    pub fn force_restart_selected(&mut self, replies: &[Reply]) -> (step: Step<()>)
        requires
            old(self)@.selected < old(self)@.procs.len(),
        ensures
            (step@, final(self)@) == old(self)@.force_restart_step(replies@),
    {
        let right: Option<String> = self.right_pane_id.clone();
        match right {
            Some(right) if self.procs[self.selected].is_shown => self.restart_shown(
                right.as_str(),
                replies,
            ),
            _ => self.restart_hidden(replies),
        }
    }

    /// Restart the selected process if it is dead.
    pub fn restart_selected(&mut self, replies: &[Reply]) -> (step: Step<()>)
        requires
            old(self)@.selected < old(self)@.procs.len(),
        ensures
            (step@, final(self)@) == old(self)@.restart_step(replies@),
    {
        match self.procs[self.selected].status {
            ProcStatus::Dead => self.force_restart_selected(replies),
            ProcStatus::Running => Step::Done(Ok(())),
        }
    }

    /// Kill the selected process's child, leaving the wrapper pane open.
    /// Whether there is a child to kill, and whether it can be killed, does
    /// not matter. Status is not updated here; the next `refresh_status` tick
    /// will observe the status file change and update it accurately.
    pub fn kill_selected(&mut self, replies: &[Reply]) -> (step: Step<()>)
        requires
            old(self)@.selected < old(self)@.procs.len(),
        ensures
            *final(self) == *old(self),
            step@ == old(self)@.kill_step(replies@),
    {
        let status_file: String = self.bg_session.status_file_for(
            self.procs[self.selected].name.as_str(),
        );
        match tmux::kill_child_in_wrapper(status_file.as_str(), replies) {
            Step::Ask(request) => Step::Ask(request),
            Step::Done(_) => Step::Done(Ok(())),
        }
    }

    /// Move the focus to the right pane, if there is one.
    pub fn focus_right(&self, replies: &[Reply]) -> (step: Step<()>)
        ensures
            step@ == self@.focus_step(replies@),
    {
        match &self.right_pane_id {
            Some(right) => match tmux::focus_pane(right.as_str(), replies) {
                Step::Ask(request) => Step::Ask(request),
                Step::Done(_) => Step::Done(Ok(())),
            },
            None => Step::Done(Ok(())),
        }
    }

    /// Stop everything, and count the replies that this took.
    fn stop_counted(&self, replies: &[Reply]) -> (stopped: (Step<()>, usize))
        ensures
            stopped.0@ == self@.stop_step(0, replies@),
            stopped.0 is Done ==> stopped.1 == self@.stop_replies(0, replies@) && stopped.1
                <= replies@.len(),
    {
        let total: usize = replies.len();
        let mut i: usize = 0;
        let mut count: usize = 0;
        let mut rest: &[Reply] = replies;
        while i < self.procs.len()
            invariant
                i <= self.procs.len(),
                self@.stop_step(0, replies@) == self@.stop_step(i as nat, rest@),
                count + rest@.len() == total,
                self@.stop_replies(0, replies@) == count + self@.stop_replies(i as nat, rest@),
            decreases self.procs.len() - i,
        {
            let status_file: String = self.bg_session.status_file_for(
                self.procs[i].name.as_str(),
            );
            match tmux::kill_child_in_wrapper(status_file.as_str(), rest) {
                Step::Ask(request) => return (Step::Ask(request), count),
                Step::Done(_) => {},
            }
            let taken: usize = tmux::kill_child_taken(rest);
            let later: &[Reply] = vstd::slice::slice_subrange(rest, taken, rest.len());
            rest = later;
            count += taken;
            i += 1;
        }
        match &self.right_pane_id {
            Some(right) => match tmux::kill_pane(right.as_str(), rest) {
                Step::Ask(request) => (Step::Ask(request), count),
                Step::Done(_) => (Step::Done(Ok(())), count + 1),
            },
            None => (Step::Done(Ok(())), count),
        }
    }

    /// Kill the child process groups, and then the right pane that is joined
    /// into our window.
    pub fn stop(&self, replies: &[Reply]) -> (step: Step<()>)
        ensures
            step@ == self@.stop_step(0, replies@),
    {
        self.stop_counted(replies).0
    }

    /// Kill the child process groups before tearing down panes and windows:
    /// then the right pane goes, and then the remaining background windows.
    pub fn shut_down(&self, replies: &[Reply]) -> (step: Step<()>)
        ensures
            step@ == self@.shut_down_step(replies@),
    {
        let (stopped, taken): (Step<()>, usize) = self.stop_counted(replies);
        match stopped {
            Step::Ask(request) => Step::Ask(request),
            Step::Done(_) => self.bg_session.cleanup(
                vstd::slice::slice_subrange(replies, taken, replies.len()),
            ),
        }
    }

    /// The status files of the processes.
    pub fn status_files(&self) -> (paths: Vec<String>)
        ensures
            text::texts(paths@) == Seq::new(
                self@.procs.len(),
                |i: int| self@.session.status_file(self@.procs[i].name),
            ),
    {
        let mut paths: Vec<String> = Vec::new();
        let mut i: usize = 0;
        while i < self.procs.len()
            invariant
                i <= self.procs.len(),
                paths.len() == i,
                forall|j: int|
                    0 <= j < i ==> (#[trigger] paths@[j])@ == self@.session.status_file(
                        self@.procs[j].name,
                    ),
            decreases self.procs.len() - i,
        {
            paths.push(self.bg_session.status_file_for(self.procs[i].name.as_str()));
            i += 1;
        }
        paths
    }

    /// Set the status of every process by what its status file holds.
    pub fn refresh_status(&mut self, replies: &[Reply]) -> (step: Step<()>)
        ensures
            (step@, final(self)@) == old(self)@.refresh_step(replies@),
    {
        if replies.len() < self.procs.len() {
            return Step::Ask(
                Request::ReadFile(
                    self.bg_session.status_file_for(self.procs[replies.len()].name.as_str()),
                ),
            );
        }
        let mut i: usize = 0;
        while i < self.procs.len()
            invariant
                i <= self.procs.len(),
                replies@.len() >= self.procs.len(),
                self.procs.len() == old(self).procs.len(),
                self@ == (AppView { procs: self@.procs, ..old(self)@ }),
                forall|j: int|
                    0 <= j < self.procs.len() ==> #[trigger] self@.procs[j] == (if j < i {
                        old(self)@.refreshed(replies@).procs[j]
                    } else {
                        old(self)@.procs[j]
                    }),
            decreases self.procs.len() - i,
        {
            let ghost before = self@.procs;
            let status: ProcStatus = match command::text_of(&replies[i]) {
                Ok(content) => parse_status(content),
                Err(_) => parse_status(""),
            };
            proof {
                reveal_strlit("");
            }
            self.procs[i].status = status;
            assert(self@.procs == with_status(before, i as nat, status));
            i += 1;
        }
        Step::Done(Ok(()))
    }
}

/// The status that the content of a status file tells of.
pub fn parse_status(content: &str) -> (status: ProcStatus)
    ensures
        status == status_in(content@),
{
    if text::starts_with(text::trim(content), "running") {
        ProcStatus::Running
    } else {
        ProcStatus::Dead
    }
}

} // verus!
