//! What holds of the event loop over all of its rounds.

use crate::app::AppView;
use crate::command::Reply;
use crate::laws;
use crate::tui;
use crate::tui::{Action, Event, EventLoop, Intent};
use vstd::prelude::*;

verus! {

/// One round of the loop: it waits for an event, takes it, and does what is to
/// be done about it.
pub struct Round {
    /// When the wait began.
    pub polled: u128,
    /// What ended the wait.
    pub event: Event,
    /// When the event was taken.
    pub taken: u128,
    /// When the selected process had been shown, or could not be, in a round
    /// that shows it; some moment of the round otherwise.
    pub shown: u128,
    /// The replies that each of the actions got.
    pub replies: Seq<Seq<Reply>>,
}

/// The loop from its start, round by round.
pub struct Run {
    /// The application at the start.
    pub app: AppView,
    pub rounds: Seq<Round>,
}

/// The application after `actions`, one after the other.
pub open spec fn acted(app: AppView, actions: Seq<Action>, replies: Seq<Seq<Reply>>) -> AppView
    decreases actions.len(),
{
    if actions.len() == 0 {
        app
    } else {
        acted(
            tui::action_step(actions[0], app, replies[0]).1,
            actions.skip(1),
            replies.skip(1),
        )
    }
}

/// Whether a round shows the selected process.
pub open spec fn round_shows(this: EventLoop, app: AppView, round: Round) -> bool {
    this.after(app, round.event, round.taken).2.contains(Action::Show)
}

/// The loop and the application after a round.
pub open spec fn round_after(this: EventLoop, app: AppView, round: Round) -> (EventLoop, AppView) {
    let (next, moved, actions) = this.after(app, round.event, round.taken);
    (
        if round_shows(this, app, round) {
            EventLoop { last_swap: Some(round.shown), nav_pending: false }
        } else {
            next
        },
        acted(moved, actions, round.replies),
    )
}

impl Run {
    /// The loop and the application before round `n`.
    pub open spec fn state(self, n: nat) -> (EventLoop, AppView)
        decreases n,
    {
        if n == 0 {
            (EventLoop { last_swap: None, nav_pending: false }, self.app)
        } else {
            let (this, app) = self.state((n - 1) as nat);
            round_after(this, app, self.rounds[n - 1])
        }
    }

    /// The selected process before round `n`.
    pub open spec fn selected(self, n: nat) -> nat {
        self.state(n).1.selected
    }

    /// What is to be done in round `n`.
    pub open spec fn actions(self, n: nat) -> Seq<Action> {
        let (this, app) = self.state(n);
        this.after(app, self.rounds[n as int].event, self.rounds[n as int].taken).2
    }

    /// Whether round `n` shows the selected process.
    pub open spec fn shows(self, n: nat) -> bool {
        self.actions(n).contains(Action::Show)
    }

    /// What the event of round `n` asks for.
    pub open spec fn intent(self, n: nat) -> Intent {
        tui::intent_of(self.rounds[n as int].event)
    }

    /// Whether round `n` moves the selection.
    pub open spec fn moves(self, n: nat) -> bool {
        self.intent(n) == Intent::Up || self.intent(n) == Intent::Down
    }

    /// The last round before round `n` that showed a process, if there is one.
    pub open spec fn last_show(self, n: nat) -> Option<nat>
        decreases n,
    {
        if n == 0 {
            None
        } else if self.shows((n - 1) as nat) {
            Some((n - 1) as nat)
        } else {
            self.last_show((n - 1) as nat)
        }
    }

    /// Time does not run backwards, and where a wait ends without an event, it
    /// has taken as long as the loop wanted to wait.
    pub open spec fn timely(self) -> bool {
        &&& forall|n: int|
            0 <= n < self.rounds.len() ==> (#[trigger] self.rounds[n]).polled
                <= self.rounds[n].taken <= self.rounds[n].shown
        &&& forall|m: int, n: int|
            0 <= m < n < self.rounds.len() ==> (#[trigger] self.rounds[m]).shown <= (
            #[trigger] self.rounds[n]).polled
        &&& forall|n: nat|
            n < self.rounds.len() && (#[trigger] self.intent(n)) == Intent::Wait
                ==> self.rounds[n as int].polled + self.state(n).0.wait(
                self.rounds[n as int].polled,
            ) <= self.rounds[n as int].taken
    }
}

/// No action moves the selection.
proof fn lemma_acted_selected(app: AppView, actions: Seq<Action>, replies: Seq<Seq<Reply>>)
    ensures
        acted(app, actions, replies).selected == app.selected,
    decreases actions.len(),
{
    if actions.len() > 0 {
        laws::tui::law_actions_keep_wf(actions[0], app, replies[0]);
        lemma_acted_selected(
            tui::action_step(actions[0], app, replies[0]).1,
            actions.skip(1),
            replies.skip(1),
        );
    }
}

/// When a round shows the selected process: by what the event is, and by
/// whether the last swap is long enough ago.
proof fn lemma_round_shows(this: EventLoop, app: AppView, round: Round)
    ensures
        round_shows(this, app, round) <==> match tui::intent_of(round.event) {
            Intent::Up | Intent::Down => this.clear(round.taken),
            Intent::Enter | Intent::Wait => this.nav_pending,
            _ => false,
        },
        round_shows(this, app, round) ==> this.after(app, round.event, round.taken).2[0]
            == Action::Show,
{
    let actions = this.after(app, round.event, round.taken).2;
    if actions.len() > 0 && actions[0] == Action::Show {
        assert(actions.contains(Action::Show));
    }
}

/// The loop remembers when the last showing was over, and a swap is pending only
/// where there has been one.
proof fn lemma_last_show(run: Run, n: nat)
    ensures
        match run.last_show(n) {
            Some(s) => s < n && run.shows(s) && run.state(n).0.last_swap == Some(
                run.rounds[s as int].shown,
            ) && forall|m: nat| s < m < n ==> !#[trigger] run.shows(m),
            None => run.state(n).0.last_swap is None && forall|m: nat|
                m < n ==> !#[trigger] run.shows(m),
        },
        laws::tui::loop_wf(run.state(n).0),
    decreases n,
{
    if n > 0 {
        let m = (n - 1) as nat;
        lemma_last_show(run, m);
        let (this, app) = run.state(m);
        laws::tui::law_loop_wf(this, app, run.rounds[m as int].event, run.rounds[m as int].taken);
        lemma_round_shows(this, app, run.rounds[m as int]);
        assert(run.shows(m) == round_shows(this, app, run.rounds[m as int]));
    }
}

/// Between the end of one showing and the start of any later one that is not
/// made by Enter lies the throttle.
pub proof fn law_shows_are_throttled(run: Run, earlier: nat, later: nat)
    requires
        run.timely(),
        earlier < later < run.rounds.len(),
        run.shows(earlier),
        run.shows(later),
        run.intent(later) != Intent::Enter,
    ensures
        run.rounds[earlier as int].shown + tui::SWAP_THROTTLE <= run.rounds[later as int].taken,
{
    let (this, app) = run.state(later);
    let round = run.rounds[later as int];
    lemma_last_show(run, later);
    lemma_round_shows(this, app, round);
    assert(round_shows(this, app, round));
    let last = run.last_show(later)->0;
    assert(earlier <= last);
    if earlier < last {
        assert(run.rounds[earlier as int].shown <= run.rounds[last as int].polled);
    }
    assert(run.rounds[last as int].shown <= round.polled);
    assert(run.intent(later) == tui::intent_of(round.event));
}

/// An event that moves the selection moves it in its own round, throttle or not,
/// and nothing else ever moves it.
pub proof fn law_selection_moves_at_once(run: Run, n: nat)
    requires
        n < run.rounds.len(),
    ensures
        run.selected(n + 1) == if run.moves(n) {
            tui::moved(run.state(n).1, run.intent(n)).selected
        } else {
            run.selected(n)
        },
{
    let (this, app) = run.state(n);
    let round = run.rounds[n as int];
    let (next, moved, actions) = this.after(app, round.event, round.taken);
    lemma_acted_selected(moved, actions, round.replies);
}

/// A move that was not followed leaves a swap pending until a round shows one.
proof fn lemma_pending(run: Run, moved: nat, n: nat)
    requires
        moved < n,
        run.moves(moved),
        forall|m: nat| moved <= m < n ==> !#[trigger] run.shows(m),
    ensures
        run.state(n).0.nav_pending,
    decreases n,
{
    let m = (n - 1) as nat;
    let (this, app) = run.state(m);
    lemma_round_shows(this, app, run.rounds[m as int]);
    assert(run.shows(m) == round_shows(this, app, run.rounds[m as int]));
    if moved < m {
        lemma_pending(run, moved, m);
    }
}

/// A move that comes too early is not lost: as long as no round has shown the
/// selected process since, the first event-free end of a wait, Enter, or a move
/// after the throttle shows it, and nothing else does. The wait ends with the
/// throttle. What is shown is what is selected at the end of that round.
pub proof fn law_early_move_is_shown_later(run: Run, moved: nat, n: nat)
    requires
        run.timely(),
        moved < n < run.rounds.len(),
        run.moves(moved),
        forall|m: nat| moved <= m < n ==> !#[trigger] run.shows(m),
    ensures
        run.state(n).0.nav_pending,
        run.last_show(n) is Some,
        ({
            let due = run.rounds[run.last_show(n)->0 as int].shown + tui::SWAP_THROTTLE;
            let round = run.rounds[n as int];
            let (this, app) = run.state(n);
            &&& run.shows(n) <==> run.intent(n) == Intent::Wait || run.intent(n) == Intent::Enter
                || (run.moves(n) && due <= round.taken)
            &&& this.wait(round.polled) == if round.polled < due {
                due - round.polled
            } else {
                0
            }
            &&& run.shows(n) ==> run.actions(n)[0] == Action::Show && this.after(
                app,
                round.event,
                round.taken,
            ).1.selected == run.selected(n + 1)
        }),
{
    let (this, app) = run.state(n);
    let round = run.rounds[n as int];
    lemma_pending(run, moved, n);
    lemma_last_show(run, n);
    lemma_round_shows(this, app, round);
    assert(run.shows(n) == round_shows(this, app, round));
    let last = run.last_show(n)->0;
    assert(run.rounds[last as int].shown <= round.polled);
    let (next, after, actions) = this.after(app, round.event, round.taken);
    lemma_acted_selected(after, actions, round.replies);
}

} // verus!
