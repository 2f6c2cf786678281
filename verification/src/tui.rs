//! The event loop of the process list: what each event does, and how fast the
//! shown process follows the selection.

use crate::app::{App, AppView};
use crate::command;
use crate::command::{Reply, Step, StepView};
use vstd::prelude::*;
use vstd::string::*;

verus! {

/// How long the loop waits for an event before it looks at the statuses, in
/// nanoseconds.
pub const STATUS_INTERVAL: u128 = 1_000_000_000;

/// How long after a swap the next one waits, in nanoseconds.
pub const SWAP_THROTTLE: u128 = 250_000_000;

/// A key.
#[derive(Clone, Copy, Debug, PartialEq, Eq, Structural)]
pub enum Key {
    Char(char),
    Up,
    Down,
    Enter,
    Other,
}

/// What the loop is woken by.
#[derive(Clone, Copy, Debug, PartialEq, Eq, Structural)]
pub enum Event {
    /// A key; `control` where Control and nothing else is held with it.
    Key { control: bool, key: Key },
    /// The terminal has another size.
    Resize,
    /// Anything else that the terminal reports.
    Other,
    /// Nothing happened for as long as the loop waits.
    Timeout,
}

/// What the loop has done about an event.
#[derive(Clone, Copy, Debug, PartialEq, Eq, Structural)]
pub enum Action {
    /// Show the selected process.
    Show,
    /// Move the focus to the right pane.
    Focus,
    /// Restart the selected process if it is dead.
    Restart,
    /// Restart the selected process.
    ForceRestart,
    /// Kill the selected process's child.
    Kill,
    /// Look at the statuses.
    Refresh,
    /// Clear the terminal.
    Clear,
}

/// What an event asks for.
#[derive(Clone, Copy, Debug, PartialEq, Eq, Structural)]
pub enum Intent {
    Quit,
    Up,
    Down,
    Enter,
    Restart,
    ForceRestart,
    Kill,
    Clear,
    Wait,
    Nothing,
}

/// What an event asks for.
pub open spec fn intent_of(event: Event) -> Intent {
    match event {
        Event::Key { control, key } => match key {
            Key::Char('q') => Intent::Quit,
            Key::Char('c') => if control {
                Intent::Quit
            } else {
                Intent::Nothing
            },
            Key::Up => Intent::Up,
            Key::Char('k') => Intent::Up,
            Key::Down => Intent::Down,
            Key::Char('j') => Intent::Down,
            Key::Enter => Intent::Enter,
            Key::Char('s') => Intent::Restart,
            Key::Char('r') => Intent::ForceRestart,
            Key::Char('x') => Intent::Kill,
            _ => Intent::Nothing,
        },
        Event::Resize => Intent::Clear,
        Event::Other => Intent::Nothing,
        Event::Timeout => Intent::Wait,
    }
}

/// What an event asks for.
pub fn intent(event: Event) -> (intent: Intent)
    ensures
        intent == intent_of(event),
{
    match event {
        Event::Key { control, key } => match key {
            Key::Char('q') => Intent::Quit,
            Key::Char('c') => if control {
                Intent::Quit
            } else {
                Intent::Nothing
            },
            Key::Up => Intent::Up,
            Key::Char('k') => Intent::Up,
            Key::Down => Intent::Down,
            Key::Char('j') => Intent::Down,
            Key::Enter => Intent::Enter,
            Key::Char('s') => Intent::Restart,
            Key::Char('r') => Intent::ForceRestart,
            Key::Char('x') => Intent::Kill,
            _ => Intent::Nothing,
        },
        Event::Resize => Intent::Clear,
        Event::Other => Intent::Nothing,
        Event::Timeout => Intent::Wait,
    }
}

/// What the loop remembers. Times are nanoseconds since some fixed moment.
#[derive(Clone, Copy, Debug, PartialEq, Eq, Structural)]
pub struct EventLoop {
    /// When a process was last brought in.
    pub last_swap: Option<u128>,
    /// Whether the selection has moved and the shown process has not followed.
    pub nav_pending: bool,
}

/// The time from `earlier` to `now`.
pub open spec fn elapsed(earlier: u128, now: u128) -> nat {
    if earlier <= now {
        (now - earlier) as nat
    } else {
        0
    }
}

/// The application after the selection moved.
pub open spec fn moved(app: AppView, intent: Intent) -> AppView {
    if intent == Intent::Up {
        app.moved_up()
    } else {
        app.moved_down()
    }
}

impl EventLoop {
    /// Whether the next swap need not wait.
    pub open spec fn clear(self, now: u128) -> bool {
        match self.last_swap {
            Some(earlier) => elapsed(earlier, now) >= SWAP_THROTTLE,
            None => true,
        }
    }

    /// How long to wait for an event: until a pending swap is due, and else
    /// until the statuses are.
    pub open spec fn wait(self, now: u128) -> nat {
        if !self.nav_pending {
            STATUS_INTERVAL as nat
        } else {
            match self.last_swap {
                Some(earlier) => if elapsed(earlier, now) < SWAP_THROTTLE {
                    (SWAP_THROTTLE - elapsed(earlier, now)) as nat
                } else {
                    0
                },
                None => 0,
            }
        }
    }

    /// The loop, the application and what is to be done after `event` at `now`.
    pub open spec fn after(self, app: AppView, event: Event, now: u128) -> (
        EventLoop,
        AppView,
        Seq<Action>,
    ) {
        match intent_of(event) {
            Intent::Quit => (self, AppView { should_quit: true, ..app }, seq![]),
            Intent::Up | Intent::Down => if self.clear(now) {
                (self, moved(app, intent_of(event)), seq![Action::Show])
            } else {
                (
                    EventLoop { nav_pending: true, ..self },
                    moved(app, intent_of(event)),
                    seq![],
                )
            },
            Intent::Enter => if self.nav_pending {
                (self, app, seq![Action::Show, Action::Focus])
            } else {
                (self, app, seq![Action::Focus])
            },
            Intent::Restart => (self, app, seq![Action::Restart]),
            Intent::ForceRestart => (self, app, seq![Action::ForceRestart, Action::Clear]),
            Intent::Kill => (self, app, seq![Action::Kill]),
            Intent::Clear => (self, app, seq![Action::Clear]),
            Intent::Wait => if self.nav_pending {
                (self, app, seq![Action::Show])
            } else {
                (self, app, seq![Action::Refresh])
            },
            Intent::Nothing => (self, app, seq![]),
        }
    }

    /// The loop before its first event.
    pub fn new() -> (this: Self)
        ensures
            this == (EventLoop { last_swap: None, nav_pending: false }),
    {
        EventLoop { last_swap: None, nav_pending: false }
    }

    /// How long the last swap is ago, if there was one.
    fn since_swap(&self, now: u128) -> (age: Option<u128>)
        ensures
            match (age, self.last_swap) {
                (Some(a), Some(earlier)) => a == elapsed(earlier, now),
                (None, None) => true,
                _ => false,
            },
    {
        match self.last_swap {
            Some(earlier) => if earlier <= now {
                Some(now - earlier)
            } else {
                Some(0)
            },
            None => None,
        }
    }

    /// How long to wait for an event, in nanoseconds.
    pub fn timeout(&self, now: u128) -> (nanos: u128)
        ensures
            nanos == self.wait(now),
    {
        if !self.nav_pending {
            return STATUS_INTERVAL;
        }
        match self.since_swap(now) {
            Some(age) => if age < SWAP_THROTTLE {
                SWAP_THROTTLE - age
            } else {
                0
            },
            None => 0,
        }
    }

    /// Take an event: the selection moves at once, and what else is to be done
    /// is given, in order. `swapped` is to be called after each `Show`.
    pub fn take_event(&mut self, app: &mut App, event: Event, now: u128) -> (actions: Vec<Action>)
        ensures
            (*final(self), final(app)@, actions@) == old(self).after(old(app)@, event, now),
    {
        let mut actions: Vec<Action> = Vec::new();
        match intent(event) {
            Intent::Quit => {
                app.should_quit = true;
            },
            Intent::Up => {
                app.move_up();
                self.follow(&mut actions, now);
            },
            Intent::Down => {
                app.move_down();
                self.follow(&mut actions, now);
            },
            Intent::Enter => {
                if self.nav_pending {
                    actions.push(Action::Show);
                }
                actions.push(Action::Focus);
            },
            Intent::Restart => {
                actions.push(Action::Restart);
            },
            Intent::ForceRestart => {
                actions.push(Action::ForceRestart);
                actions.push(Action::Clear);
            },
            Intent::Kill => {
                actions.push(Action::Kill);
            },
            Intent::Clear => {
                actions.push(Action::Clear);
            },
            Intent::Wait => {
                if self.nav_pending {
                    actions.push(Action::Show);
                } else {
                    actions.push(Action::Refresh);
                }
            },
            Intent::Nothing => {},
        }
        actions
    }

    /// Let the shown process follow the selection, now or later.
    fn follow(&mut self, actions: &mut Vec<Action>, now: u128)
        ensures
            old(self).clear(now) ==> *final(self) == *old(self) && final(actions)@ == old(
                actions,
            )@.push(Action::Show),
            !old(self).clear(now) ==> *final(self) == (EventLoop {
                nav_pending: true,
                ..*old(self)
            }) && final(actions)@ == old(actions)@,
    {
        let clear: bool = match self.since_swap(now) {
            Some(age) => age >= SWAP_THROTTLE,
            None => true,
        };
        if clear {
            actions.push(Action::Show);
        } else {
            self.nav_pending = true;
        }
    }

    /// The selected process has been shown, or could not be.
    pub fn swapped(&mut self, now: u128)
        ensures
            *final(self) == (EventLoop { last_swap: Some(now), nav_pending: false }),
    {
        self.last_swap = Some(now);
        self.nav_pending = false;
    }
}

/// How an action on the application goes on after `replies`, and the state
/// then. Clearing the terminal is no action on the application.
pub open spec fn action_step(action: Action, app: AppView, replies: Seq<Reply>) -> (
    StepView<()>,
    AppView,
) {
    match action {
        Action::Show => app.show_step(app.procs[app.selected as int].name, replies),
        Action::Focus => (app.focus_step(replies), app),
        Action::Restart => app.restart_step(replies),
        Action::ForceRestart => app.force_restart_step(replies),
        Action::Kill => (app.kill_step(replies), app),
        Action::Refresh => app.refresh_step(replies),
        Action::Clear => (StepView::Done(Ok(())), app),
    }
}

/// Whether an action is one on the selected process.
pub open spec fn needs_selection(action: Action) -> bool {
    match action {
        Action::Show | Action::Restart | Action::ForceRestart | Action::Kill => true,
        Action::Focus | Action::Refresh | Action::Clear => false,
    }
}

/// Do an action on the application.
pub fn perform(action: Action, app: &mut App, replies: &[Reply]) -> (step: Step<()>)
    requires
        needs_selection(action) ==> old(app)@.selected < old(app)@.procs.len(),
    ensures
        (step@, final(app)@) == action_step(action, old(app)@, replies@),
{
    match action {
        Action::Show => app.show_selected(replies),
        Action::Focus => app.focus_right(replies),
        Action::Restart => app.restart_selected(replies),
        Action::ForceRestart => app.force_restart_selected(replies),
        Action::Kill => app.kill_selected(replies),
        Action::Refresh => app.refresh_status(replies),
        Action::Clear => Step::Done(Ok(())),
    }
}

/// What is said when an action fails with `error`.
pub open spec fn complaint_text(action: Action, error: Seq<char>) -> Seq<char> {
    match action {
        Action::Show => "error showing proc: "@ + error,
        Action::Restart | Action::ForceRestart => "error restarting proc: "@ + error,
        Action::Kill => "error killing proc: "@ + error,
        _ => error,
    }
}

/// What is said when an action fails with `error`.
pub fn complaint(action: Action, error: &str) -> (text: String)
    ensures
        text@ == complaint_text(action, error@),
{
    match action {
        Action::Show => command::concat("error showing proc: ", error),
        Action::Restart | Action::ForceRestart => command::concat("error restarting proc: ", error),
        Action::Kill => command::concat("error killing proc: ", error),
        _ => error.to_owned(),
    }
}

} // verus!
