//! The status file: what the wrapper writes is what the list reads.

use crate::app;
use crate::app::ProcStatus;
use crate::command::{InvocationView, Reply, RequestView, StepView, TmuxErrorView};
use crate::number;
use crate::text;
use crate::tmux;
use crate::wrapper;
use crate::wrapper::{Effect, EffectView, Happening, Phase};
use vstd::prelude::*;
use vstd::string::*;

verus! {

/// A text without white space at its ends stays as it is.
proof fn lemma_nothing_to_trim(s: Seq<char>)
    requires
        s.len() > 0,
        !text::is_white_space(s[0]),
        !text::is_white_space(s.last()),
    ensures
        text::trimmed(s) == s,
{
}

/// While the process runs, its status file reads as running, and names the
/// process.
pub proof fn law_running_reads_back(pid: u32)
    ensures
        app::status_in(wrapper::running_text(pid)) == ProcStatus::Running,
        tmux::running_process(wrapper::running_text(pid)) == Some(number::decimal(pid as nat)),
        number::parsed_u32(number::decimal(pid as nat)) == Some(pid),
{
    let s = wrapper::running_text(pid);
    let digits = number::decimal(pid as nat);
    reveal_strlit("running:");
    reveal_strlit("running");
    number::law_decimal_value(pid as nat);
    number::law_parse_decimal(pid);
    assert(s.last() == digits.last());
    assert(number::is_digit(digits[digits.len() - 1]));
    lemma_nothing_to_trim(s);
    assert(s.take("running:"@.len() as int) == "running:"@);
    assert(s.take("running"@.len() as int) == "running"@);
    assert(s.skip("running:"@.len() as int) == digits);
}

/// Once the process has ended, its status file reads as dead, and names no
/// process.
pub proof fn law_dead_reads_back(code: int)
    ensures
        app::status_in(wrapper::dead_text(code)) == ProcStatus::Dead,
        tmux::running_process(wrapper::dead_text(code)) is None,
{
    let s = wrapper::dead_text(code);
    let size = if code < 0 {
        (-code) as nat
    } else {
        code as nat
    };
    let digits = number::decimal(size);
    reveal_strlit("dead:");
    reveal_strlit("running:");
    reveal_strlit("running");
    number::law_decimal_value(size);
    assert(s.last() == digits.last());
    assert(number::is_digit(digits[digits.len() - 1]));
    lemma_nothing_to_trim(s);
    assert(s[0] == 'd');
    if "running"@.is_prefix_of(s) {
        assert(s.take("running"@.len() as int)[0] == 'r');
    }
    if "running:"@.is_prefix_of(s) {
        assert(s.take("running:"@.len() as int)[0] == 'r');
    }
}

/// Killing the child of a wrapper whose process runs sends SIGTERM to the
/// process group of that process; where the process has ended, nothing is sent.
pub proof fn law_kill_finds_the_process(path: Seq<char>, content: String, pid: u32, code: int)
    ensures
        content@ == wrapper::running_text(pid) ==> tmux::kill_child_step(
            path,
            seq![Reply::Text(content)],
        ) == StepView::<()>::Ask(
            RequestView::Run(
                InvocationView {
                    program: "kill"@,
                    args: seq!["-TERM"@, "-"@ + number::decimal(pid as nat)],
                    captured: false,
                },
            ),
        ),
        content@ == wrapper::dead_text(code) ==> tmux::kill_child_step(
            path,
            seq![Reply::Text(content)],
        ) == StepView::<()>::Done(Err(TmuxErrorView::NotRunning)),
{
    law_running_reads_back(pid);
    law_dead_reads_back(code);
    assert(seq![Reply::Text(content)].skip(1) == Seq::<Reply>::empty());
}

/// The status file follows the process: the wrapper writes that it runs as soon
/// as it has started, and that it is dead as soon as it has ended or is lost.
pub proof fn law_status_follows(happening: Happening)
    ensures
        ({
            let (phase, effects) = wrapper::reaction(Phase::Starting, happening);
            phase == Phase::Watching ==> match effects[0] {
                EffectView::WriteStatus { text, .. } => app::status_in(text)
                    == ProcStatus::Running,
                _ => false,
            }
        }),
        ({
            let (phase, effects) = wrapper::reaction(Phase::Watching, happening);
            phase == Phase::Prompting || phase == Phase::Idle ==> match effects[0] {
                EffectView::WriteStatus { text, .. } => app::status_in(text) == ProcStatus::Dead,
                _ => false,
            }
        }),
{
    match happening {
        Happening::Started(pid) => {
            law_running_reads_back(pid);
        },
        Happening::Exited(code) => {
            law_dead_reads_back(wrapper::exit_code(code));
        },
        Happening::Lost(_) => {
            law_dead_reads_back(-1);
        },
        _ => {},
    }
}

/// What the wrapper does when the command has started: it writes down that this
/// very process runs, which it must, and then watches it.
pub proof fn law_start_is_watched(pid: u32)
    ensures
        ({
            let (phase, effects) = wrapper::reaction(Phase::Starting, Happening::Started(pid));
            &&& phase == Phase::Watching
            &&& effects.len() == 2
            &&& effects[0] == (EffectView::WriteStatus {
                text: "running:"@ + number::decimal(pid as nat),
                vital: true,
            })
            &&& effects[1] == EffectView::Watch
        }),
{
}

/// A command that runs is looked at again after a while, and only then.
pub proof fn law_watching_goes_on()
    ensures
        wrapper::reaction(Phase::Watching, Happening::StillRunning) == (
            Phase::Watching,
            seq![EffectView::Pause, EffectView::Watch],
        ),
{
}

/// An exit while the command is watched, with whatever code or by a signal,
/// is written down as a death with that code (-1 for a signal), is told, and
/// leads to the wait for a key at the terminal.
pub proof fn law_exit_prompts(code: Option<i32>)
    ensures
        ({
            let (phase, effects) = wrapper::reaction(Phase::Watching, Happening::Exited(code));
            let number = match code {
                Some(c) => c as int,
                None => -1,
            };
            &&& phase == Phase::Prompting
            &&& effects.len() == 4
            &&& effects[0] == (EffectView::WriteStatus {
                text: "dead:"@ + number::signed_decimal(number),
                vital: false,
            })
            &&& app::status_in(effects[0]->text) == ProcStatus::Dead
            &&& effects[1] == EffectView::Print(
                "\n\x1b[31m[process exited: "@ + (if number == 0 {
                    "success"@
                } else {
                    "code "@ + number::signed_decimal(number)
                }) + "]\x1b[0m\n"@ + "\x1b[90mpress 's' to restart: \x1b[0m"@,
            )
            &&& effects[2] == EffectView::TakeTerminal
            &&& effects[3] == EffectView::ReadKey
        }),
{
    law_dead_reads_back(
        match code {
            Some(c) => c as int,
            None => -1,
        },
    );
}

/// A process that is lost is written down as dead, with the reason told, and the
/// wrapper sleeps for ever.
pub proof fn law_lost_sleeps(reason: String)
    ensures
        wrapper::reaction(Phase::Watching, Happening::Lost(reason)) == (
            Phase::Idle,
            seq![
                EffectView::WriteStatus {
                    text: "dead:"@ + number::signed_decimal(-1),
                    vital: false,
                },
                EffectView::Complain("[wrapper error: "@ + reason@ + "]"@),
                EffectView::Sleep,
            ],
        ),
{
}

/// At the prompt the small and the capital S start the command again; with
/// another key the wait goes on, at once, and without one after a while.
pub proof fn law_prompt(byte: u8)
    ensures
        wrapper::reaction(Phase::Prompting, Happening::Typed(Some(byte))) == if byte == 115
            || byte == 83 {
            (Phase::Starting, seq![EffectView::Print("\n[restarting...]\n"@), EffectView::Start])
        } else {
            (Phase::Prompting, seq![EffectView::ReadKey])
        },
        wrapper::reaction(Phase::Prompting, Happening::Typed(None)) == (
            Phase::Prompting,
            seq![EffectView::Pause, EffectView::ReadKey],
        ),
{
}

/// The wrapper ends only where the command could not be started, or the start
/// could not be written down; an exit never ends it. Once it has ended, nothing
/// happens any more.
pub proof fn law_only_failed_start_ends(phase: Phase, happening: Happening)
    ensures
        phase != Phase::Ended && wrapper::reaction(phase, happening).0 == Phase::Ended <==> (phase
            == Phase::Starting || phase == Phase::Watching) && happening is NotStarted,
        wrapper::reaction(phase, happening).0 == Phase::Ended ==> wrapper::reaction(
            phase,
            happening,
        ).1 == Seq::<EffectView>::empty(),
        wrapper::reaction(Phase::Ended, happening).0 == Phase::Ended,
{
}

/// What does not fit what the wrapper is doing changes nothing and does nothing.
pub proof fn law_misfits_do_nothing(phase: Phase, happening: Happening)
    requires
        phase == Phase::Starting ==> !(happening is Started) && !(happening is NotStarted),
        phase == Phase::Watching ==> happening is Started || happening is Typed,
        phase == Phase::Prompting ==> !(happening is Typed),
    ensures
        wrapper::reaction(phase, happening) == (phase, Seq::<EffectView>::empty()),
{
}

/// After the exit the pane stays open, and only the restart key starts the
/// command again; a wrapper that has lost its process stays for ever.
pub proof fn law_pane_stays_open(happening: Happening)
    ensures
        wrapper::reaction(Phase::Prompting, happening).0 == Phase::Prompting
            || wrapper::reaction(Phase::Prompting, happening).0 == Phase::Starting,
        wrapper::reaction(Phase::Prompting, happening).0 == Phase::Starting <==> (
        happening matches Happening::Typed(Some(byte)) && wrapper::is_restart_key(byte)),
        wrapper::reaction(Phase::Idle, happening) == (Phase::Idle, Seq::<EffectView>::empty()),
{
}

/// What is said of an effect is said of the text in it, and of whether it must
/// work.
pub proof fn law_effect_view(text: String, vital: bool)
    ensures
        (Effect::WriteStatus { text, vital })@ == (EffectView::WriteStatus { text: text@, vital }),
        Effect::Print(text)@ == EffectView::Print(text@),
        Effect::Complain(text)@ == EffectView::Complain(text@),
        Effect::Start@ == EffectView::Start,
        Effect::TakeTerminal@ == EffectView::TakeTerminal,
        Effect::Pause@ == EffectView::Pause,
        Effect::Watch@ == EffectView::Watch,
        Effect::ReadKey@ == EffectView::ReadKey,
        Effect::Sleep@ == EffectView::Sleep,
{
}

} // verus!
