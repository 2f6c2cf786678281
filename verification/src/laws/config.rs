//! How the program begins: its arguments, the processes and their order.

use crate::app;
use crate::app::ProcView;
use crate::config;
use crate::config::{Config, NamedProc, ProcConfig};
use crate::startup;
use crate::startup::{Mode, ModeView, StartError};
use crate::text;
use vstd::prelude::*;

verus! {

/// Lists with the same members have the same length, and each has the members
/// of the other.
proof fn lemma_same_members(a: Seq<ProcView>, b: Seq<ProcView>)
    requires
        a.to_multiset() == b.to_multiset(),
    ensures
        a.len() == b.len(),
        forall|i: int| 0 <= i < a.len() ==> b.contains(#[trigger] a[i]),
{
    a.to_multiset_ensures();
    b.to_multiset_ensures();
    assert forall|i: int| 0 <= i < a.len() implies b.contains(#[trigger] a[i]) by {
        assert(a.contains(a[i]));
        assert(b.to_multiset().count(a[i]) > 0);
    }
}

/// There is one order: two ordered lists of the same processes, no two of which
/// have the same name, are the same.
pub proof fn law_order_is_unique(a: Seq<ProcView>, b: Seq<ProcView>)
    requires
        config::in_order(a),
        config::in_order(b),
        app::distinct_names(a),
        a.to_multiset() == b.to_multiset(),
    ensures
        a == b,
    decreases a.len(),
{
    lemma_same_members(a, b);
    lemma_same_members(b, a);
    if a.len() == 0 {
        assert(a == b);
    } else {
        assert(b.contains(a[0]));
        assert(a.contains(b[0]));
        let k = choose|k: int| 0 <= k < b.len() && b[k] == a[0];
        let m = choose|m: int| 0 <= m < a.len() && a[m] == b[0];
        assert(a[0] == b[0]) by {
            if k > 0 && m > 0 {
                assert(!text::before(a[m].name, a[0].name));
                assert(!text::before(b[k].name, b[0].name));
                text::lemma_before_total(a[0].name, b[0].name);
                assert(a[0].name == a[m].name);
            }
        }
        let c = a.drop_first();
        let d = b.drop_first();
        a.to_multiset_ensures();
        b.to_multiset_ensures();
        assert(a.remove(0) == c);
        assert(b.remove(0) == d);
        assert forall|i: int, j: int| 0 <= i < j < c.len() implies !text::before(
            (#[trigger] c[j]).name,
            (#[trigger] c[i]).name,
        ) by {
            assert(c[i] == a[i + 1] && c[j] == a[j + 1]);
        }
        assert forall|i: int, j: int| 0 <= i < j < d.len() implies !text::before(
            (#[trigger] d[j]).name,
            (#[trigger] d[i]).name,
        ) by {
            assert(d[i] == b[i + 1] && d[j] == b[j + 1]);
        }
        assert forall|i: int, j: int| 0 <= i < j < c.len() implies (#[trigger] c[i]).name != (
        #[trigger] c[j]).name by {
            assert(c[i] == a[i + 1] && c[j] == a[j + 1]);
        }
        law_order_is_unique(c, d);
        assert(a == seq![a[0]] + c);
        assert(b == seq![b[0]] + d);
    }
}

/// A list with the members of one without repeated names repeats none either.
proof fn lemma_distinct_members(a: Seq<ProcView>, b: Seq<ProcView>)
    requires
        app::distinct_names(a),
        a.to_multiset() == b.to_multiset(),
    ensures
        app::distinct_names(b),
{
    a.to_multiset_ensures();
    b.to_multiset_ensures();
    lemma_same_members(b, a);
    assert(a.no_duplicates()) by {
        assert forall|i: int, j: int| 0 <= i < a.len() && 0 <= j < a.len() && i != j implies a[i]
            != a[j] by {
            if i < j {
                assert(a[i].name != a[j].name);
            } else {
                assert(a[j].name != a[i].name);
            }
        }
    }
    assert forall|i: int, j: int| 0 <= i < j < b.len() implies (#[trigger] b[i]).name != (
    #[trigger] b[j]).name by {
        if b[i].name == b[j].name {
            let p = choose|p: int| 0 <= p < a.len() && a[p] == b[i];
            let q = choose|q: int| 0 <= q < a.len() && a[q] == b[j];
            assert(a.contains(b[i]) && a.contains(b[j]));
            if p < q {
                assert(a[p].name != a[q].name);
            } else if q < p {
                assert(a[q].name != a[p].name);
            }
            assert(b[i] == b[j]);
            a.lemma_multiset_has_no_duplicates();
            assert(a.to_multiset().contains(b[i]));
            assert(b.to_multiset().count(b[i]) == 1);
            b.lemma_multiset_has_no_duplicates_conv();
            assert(b[i] != b[j]);
        }
    }
}

/// The processes of a well-formed configuration begin in the strict order of
/// their names, running and not shown: what an application starts from.
pub proof fn law_initial_procs(config: Config, procs: Seq<ProcView>)
    requires
        config.wf(),
        config::in_order(procs),
        procs.to_multiset() == config.described().to_multiset(),
    ensures
        app::distinct_names(procs),
        forall|i: int, j: int|
            0 <= i < j < procs.len() ==> text::before(
                (#[trigger] procs[i]).name,
                (#[trigger] procs[j]).name,
            ),
        forall|i: int|
            0 <= i < procs.len() ==> !(#[trigger] procs[i]).is_shown && procs[i].status
                == app::ProcStatus::Running,
        procs.len() == config.procs@.len(),
{
    let described = config.described();
    lemma_distinct_members(described, procs);
    lemma_same_members(procs, described);
    assert forall|i: int, j: int| 0 <= i < j < procs.len() implies text::before(
        (#[trigger] procs[i]).name,
        (#[trigger] procs[j]).name,
    ) by {
        assert(procs[i].name != procs[j].name);
        text::lemma_before_total(procs[i].name, procs[j].name);
    }
    assert forall|i: int| 0 <= i < procs.len() implies !(#[trigger] procs[i]).is_shown
        && procs[i].status == app::ProcStatus::Running by {
        assert(described.contains(procs[i]));
        let k = choose|k: int| 0 <= k < described.len() && described[k] == procs[i];
    }
}

/// The command of a process is its shell line, whatever else is there; without
/// one it is the words of its command with blanks between them; and without
/// those there is none.
pub proof fn law_command(config: ProcConfig)
    ensures
        match config.shell {
            Some(line) => config::command_of(config) == Some(line@),
            None => match config.cmd {
                Some(words) => config::command_of(config) == Some(
                    text::joined(text::texts(words@), " "@),
                ),
                None => config::command_of(config) is None,
            },
        },
{
}

/// Every entry of a configuration becomes a process of its own: the processes
/// are as many as the entries, and for each entry there is one with its name
/// and its command, which only says so where the entry has none; and every
/// process comes of an entry.
pub proof fn law_each_entry_begins(config: Config, procs: Seq<ProcView>)
    requires
        procs.to_multiset() == config.described().to_multiset(),
    ensures
        procs.len() == config.procs@.len(),
        forall|i: int|
            0 <= i < config.procs@.len() ==> procs.contains(begins(#[trigger] config.procs@[i])),
        forall|k: int|
            0 <= k < procs.len() ==> comes_of_entry(config, #[trigger] procs[k]),
{
    let described = config.described();
    lemma_same_members(procs, described);
    lemma_same_members(described, procs);
    assert forall|i: int| 0 <= i < config.procs@.len() implies procs.contains(
        begins(#[trigger] config.procs@[i]),
    ) by {
        assert(described[i] == begins(config.procs@[i]));
    }
    assert forall|k: int| 0 <= k < procs.len() implies comes_of_entry(
        config,
        #[trigger] procs[k],
    ) by {
        assert(described.contains(procs[k]));
        let i = choose|i: int| 0 <= i < described.len() && described[i] == procs[k];
        assert(described[i] == begins(config.procs@[i]));
    }
}

/// Whether a process is what some entry begins as.
pub open spec fn comes_of_entry(config: Config, proc: ProcView) -> bool {
    exists|i: int| 0 <= i < config.procs@.len() && proc == begins(#[trigger] config.procs@[i])
}

/// The process that an entry begins as: it has the entry's name and command,
/// counts as running, and is not shown.
pub open spec fn begins(entry: NamedProc) -> ProcView {
    ProcView {
        name: entry.name@,
        cmd: match (entry.config.shell, entry.config.cmd) {
            (Some(line), _) => line@,
            (None, Some(words)) => text::joined(text::texts(words@), " "@),
            (None, None) => "echo 'no command'"@,
        },
        status: app::ProcStatus::Running,
        is_shown: false,
    }
}

/// A list is in order exactly where no name comes before one in front of it.
pub proof fn law_in_order(procs: Seq<ProcView>, i: int, j: int)
    requires
        config::in_order(procs),
        0 <= i < j < procs.len(),
    ensures
        procs[i].name == procs[j].name || text::before(procs[i].name, procs[j].name),
        !text::before(procs[j].name, procs[i].name),
{
    text::lemma_before_total(procs[i].name, procs[j].name);
}

/// The names that are tried for the configuration file, in order.
pub proof fn law_config_names()
    ensures
        config::config_name(0)@ == "mprocs.yml"@,
        config::config_name(1)@ == "mprocs.yaml"@,
        config::config_name(2)@ == "tmprocs.yml"@,
        config::config_name(3)@ == "tmprocs.yaml"@,
{
}

/// Names that are denied are denied one by one.
pub proof fn law_denied<F: Fn(&str) -> bool>(present: F, k: int)
    ensures
        config::denied(present, k) <==> forall|j: int|
            0 <= j < k ==> call_ensures(present, (#[trigger] config::config_name(j),), false),
{
}

/// The program lists the processes unless its first argument is `wrap`; then it
/// wraps the command of the third with the status file of the second, and each
/// that is missing is an error of its own.
pub proof fn law_arguments(program: Seq<char>, first: Seq<char>, more: Seq<Seq<char>>)
    ensures
        startup::asked_mode(seq![]) == Ok::<ModeView, StartError>(ModeView::List),
        startup::asked_mode(seq![program]) == Ok::<ModeView, StartError>(ModeView::List),
        first != "wrap"@ ==> startup::asked_mode(seq![program, first] + more) == Ok::<
            ModeView,
            StartError,
        >(ModeView::List),
        startup::asked_mode(seq![program, "wrap"@] + more) == if more.len() == 0 {
            Err::<ModeView, StartError>(StartError::MissingStatusFile)
        } else if more.len() == 1 {
            Err::<ModeView, StartError>(StartError::MissingCommand)
        } else {
            Ok::<ModeView, StartError>(
                ModeView::Wrap { status_file: more[0], shell_cmd: more[1] },
            )
        },
{
    let args = seq![program, "wrap"@] + more;
    assert(args[1] == "wrap"@);
    if more.len() > 1 {
        assert(args[2] == more[0] && args[3] == more[1]);
    }
    assert((seq![program, first] + more)[1] == first);
}

/// What is said of a mode is said of its status file and its command.
pub proof fn law_mode_view(status_file: String, shell_cmd: String)
    ensures
        Mode::List@ == ModeView::List,
        (Mode::Wrap { status_file, shell_cmd })@ == (ModeView::Wrap {
            status_file: status_file@,
            shell_cmd: shell_cmd@,
        }),
{
}

/// Each reason not to start, in words.
pub proof fn law_reasons()
    ensures
        startup::start_message(StartError::MissingStatusFile) == "wrap: missing status file"@,
        startup::start_message(StartError::MissingCommand) == "wrap: missing command"@,
        startup::start_message(StartError::OutsideTmux)
            == "tmprocs must be run inside a tmux session"@,
        startup::start_message(StartError::NoConfig)
            == "no mprocs.yml / tmprocs.yml found in current directory"@,
        startup::start_message(StartError::NoProcs) == "no procs defined in config"@,
{
}

} // verus!
