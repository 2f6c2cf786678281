//! What the event loop keeps, and how swaps are spaced.

use crate::app::AppView;
use crate::command::Reply;
use crate::laws;
use crate::tui;
use crate::tui::{Action, Event, EventLoop, Intent, Key};
use vstd::prelude::*;

verus! {

/// Every event keeps the application well formed.
pub proof fn law_events_keep_wf(this: EventLoop, app: AppView, event: Event, now: u128)
    requires
        app.wf(),
    ensures
        this.after(app, event, now).1.wf(),
{
}

/// Every action keeps the application well formed, with the same processes,
/// the same selection and the same session.
pub proof fn law_actions_keep_wf(action: Action, app: AppView, replies: Seq<Reply>)
    ensures
        app.wf() ==> tui::action_step(action, app, replies).1.wf(),
        laws::app::same_setting(tui::action_step(action, app, replies).1, app),
{
    laws::app::law_show_keeps(app, app.procs[app.selected as int].name, replies);
    laws::app::law_restart_keeps(app, replies);
    laws::app::law_refresh_keeps(app, replies);
}

/// While an action still asks for something, nothing has changed.
pub proof fn law_asking_changes_nothing(action: Action, app: AppView, replies: Seq<Reply>)
    requires
        tui::action_step(action, app, replies).0 is Ask,
    ensures
        tui::action_step(action, app, replies).1 == app,
{
}

/// Every action comes to an end: it asks at most four times, or once for each
/// process.
pub proof fn law_actions_end(action: Action, app: AppView, replies: Seq<Reply>)
    requires
        replies.len() >= 4,
        replies.len() >= app.procs.len(),
    ensures
        tui::action_step(action, app, replies).0 is Done,
{
}

/// What each key and each event asks for: `q`, or `c` with Control and nothing
/// else, to quit; the arrows or `k` and `j` to move; Enter to go to the pane; `s` to
/// start a dead process, `r` to restart, `x` to kill; another size of the
/// terminal to clear it. No other key asks for anything.
pub proof fn law_keys(control: bool, c: char)
    ensures
        tui::intent_of(Event::Key { control, key: Key::Char(c) }) == if c == 'q' || (c == 'c'
            && control) {
            Intent::Quit
        } else if c == 'k' {
            Intent::Up
        } else if c == 'j' {
            Intent::Down
        } else if c == 's' {
            Intent::Restart
        } else if c == 'r' {
            Intent::ForceRestart
        } else if c == 'x' {
            Intent::Kill
        } else {
            Intent::Nothing
        },
        tui::intent_of(Event::Key { control, key: Key::Up }) == Intent::Up,
        tui::intent_of(Event::Key { control, key: Key::Down }) == Intent::Down,
        tui::intent_of(Event::Key { control, key: Key::Enter }) == Intent::Enter,
        tui::intent_of(Event::Key { control, key: Key::Other }) == Intent::Nothing,
        tui::intent_of(Event::Resize) == Intent::Clear,
        tui::intent_of(Event::Other) == Intent::Nothing,
        tui::intent_of(Event::Timeout) == Intent::Wait,
{
}

/// How long ago the last swap is, where there was one: no time at all where the
/// clock has gone back.
pub open spec fn since(swap: u128, now: u128) -> int {
    if swap <= now {
        now - swap
    } else {
        0
    }
}

/// What is done about each event, whatever the loop remembers and whatever the
/// application is like: a move shows the newly selected process where the last
/// swap is a quarter of a second ago, and else leaves that pending; Enter and the
/// end of a wait make up for what is pending; the rest is done at once. Only
/// quitting and moving change the application.
pub proof fn law_events(this: EventLoop, app: AppView, event: Event, now: u128)
    ensures
        ({
            let (next, after, actions) = this.after(app, event, now);
            let due = this.last_swap matches Some(swap) ==> since(swap, now) >= 250_000_000;
            let pending = if this.nav_pending {
                seq![Action::Show]
            } else {
                seq![]
            };
            match tui::intent_of(event) {
                Intent::Quit => next == this && actions == Seq::<Action>::empty() && after == (
                AppView { should_quit: true, ..app }),
                Intent::Up => after == app.moved_up() && next == (EventLoop {
                    nav_pending: this.nav_pending || !due,
                    ..this
                }) && actions == (if due {
                    seq![Action::Show]
                } else {
                    seq![]
                }),
                Intent::Down => after == app.moved_down() && next == (EventLoop {
                    nav_pending: this.nav_pending || !due,
                    ..this
                }) && actions == (if due {
                    seq![Action::Show]
                } else {
                    seq![]
                }),
                Intent::Enter => (next, after) == (this, app) && actions == pending.push(
                    Action::Focus,
                ),
                Intent::Restart => (next, after) == (this, app) && actions == seq![Action::Restart],
                Intent::ForceRestart => (next, after) == (this, app) && actions == seq![
                    Action::ForceRestart,
                    Action::Clear,
                ],
                Intent::Kill => (next, after) == (this, app) && actions == seq![Action::Kill],
                Intent::Clear => (next, after) == (this, app) && actions == seq![Action::Clear],
                Intent::Wait => (next, after) == (this, app) && actions == if this.nav_pending {
                    seq![Action::Show]
                } else {
                    seq![Action::Refresh]
                },
                Intent::Nothing => (next, after) == (this, app) && actions == Seq::<
                    Action,
                >::empty(),
            }
        }),
{
}

/// The loop waits a second for an event, and where a swap is pending, until a
/// quarter of a second after the last one.
pub proof fn law_wait(this: EventLoop, now: u128)
    ensures
        !this.nav_pending ==> this.wait(now) == 1_000_000_000,
        this.nav_pending ==> match this.last_swap {
            Some(swap) => this.wait(now) == if since(swap, now) < 250_000_000 {
                250_000_000 - since(swap, now)
            } else {
                0
            },
            None => this.wait(now) == 0,
        },
{
}

/// What fails is said with what was tried.
pub proof fn law_complaints(error: Seq<char>)
    ensures
        tui::complaint_text(Action::Show, error) == "error showing proc: "@ + error,
        tui::complaint_text(Action::Restart, error) == "error restarting proc: "@ + error,
        tui::complaint_text(Action::ForceRestart, error) == "error restarting proc: "@ + error,
        tui::complaint_text(Action::Kill, error) == "error killing proc: "@ + error,
        tui::complaint_text(Action::Focus, error) == error,
        tui::complaint_text(Action::Refresh, error) == error,
        tui::complaint_text(Action::Clear, error) == error,
{
}

/// Only a request to quit makes the application quit.
pub proof fn law_only_quit_quits(this: EventLoop, app: AppView, event: Event, now: u128)
    requires
        !app.should_quit,
    ensures
        this.after(app, event, now).1.should_quit <==> tui::intent_of(event) == Intent::Quit,
{
}

/// A swap is pending only where there has been one.
pub open spec fn loop_wf(this: EventLoop) -> bool {
    this.nav_pending ==> this.last_swap is Some
}

/// The loop stays well formed.
pub proof fn law_loop_wf(this: EventLoop, app: AppView, event: Event, now: u128)
    requires
        loop_wf(this),
    ensures
        loop_wf(EventLoop { last_swap: None, nav_pending: false }),
        loop_wf(this.after(app, event, now).0),
        loop_wf(EventLoop { last_swap: Some(now), nav_pending: false }),
{
}

/// Moving the selection moves it at once; the process is shown at once too
/// where the last swap is long enough ago, and else it is left pending.
pub proof fn law_moving_follows(this: EventLoop, app: AppView, event: Event, now: u128)
    requires
        tui::intent_of(event) == Intent::Up || tui::intent_of(event) == Intent::Down,
    ensures
        ({
            let (next, after, actions) = this.after(app, event, now);
            &&& after.selected == tui::moved(app, tui::intent_of(event)).selected
            &&& actions.contains(Action::Show) <==> this.clear(now)
            &&& !this.clear(now) ==> next.nav_pending
        }),
{
    let actions = this.after(app, event, now).2;
    if this.clear(now) {
        assert(actions[0] == Action::Show);
    }
}

/// A pending swap is never put off by more than the throttle, and when the
/// loop has waited for it, it is made, no sooner than the throttle after the
/// one before. (Time does not run backwards.)
pub proof fn law_pending_swap_is_made(
    this: EventLoop,
    app: AppView,
    asked: u128,
    woken: u128,
)
    requires
        loop_wf(this),
        this.nav_pending,
        this.last_swap->0 <= asked,
        asked + this.wait(asked) <= woken,
    ensures
        this.wait(asked) <= tui::SWAP_THROTTLE,
        this.clear(woken),
        this.after(app, Event::Timeout, woken).2 == seq![Action::Show],
{
}

/// After a swap the next move waits for the throttle.
pub proof fn law_swap_throttles(app: AppView, event: Event, swapped: u128, now: u128)
    requires
        swapped <= now < swapped + tui::SWAP_THROTTLE,
        tui::intent_of(event) == Intent::Up || tui::intent_of(event) == Intent::Down,
    ensures
        ({
            let this = EventLoop { last_swap: Some(swapped), nav_pending: false };
            let (next, after, actions) = this.after(app, event, now);
            &&& actions == Seq::<Action>::empty()
            &&& next.nav_pending
            &&& next.wait(now) == swapped + tui::SWAP_THROTTLE - now
        }),
{
}

} // verus!
