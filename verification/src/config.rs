//! The configuration: which processes there are, and their commands.

use crate::app;
use crate::app::{Proc, ProcStatus, ProcView};
use crate::startup::StartError;
use crate::text;
use vstd::prelude::*;
use vstd::string::*;

verus! {

/// The processes by name.
#[derive(Debug)]
pub struct Config {
    /// In no particular order; no name occurs twice.
    pub procs: Vec<NamedProc>,
}

/// An entry of the configuration.
#[derive(Debug)]
pub struct NamedProc {
    pub name: String,
    pub config: ProcConfig,
}

#[derive(Debug)]
pub struct ProcConfig {
    pub shell: Option<String>,
    pub cmd: Option<Vec<String>>,
}

/// The command of a process: the shell line if there is one, and else the
/// words of the command with blanks between them.
pub open spec fn command_of(config: ProcConfig) -> Option<Seq<char>> {
    match (config.shell, config.cmd) {
        (Some(shell), _) => Some(shell@),
        (None, Some(args)) => Some(text::joined(text::texts(args@), " "@)),
        (None, None) => None,
    }
}

/// The process that an entry describes, as it is at the start.
pub open spec fn described_proc(entry: NamedProc) -> ProcView {
    ProcView {
        name: entry.name@,
        cmd: match command_of(entry.config) {
            Some(cmd) => cmd,
            None => "echo 'no command'"@,
        },
        status: ProcStatus::Running,
        is_shown: false,
    }
}

/// Whether the names are in order.
pub open spec fn in_order(procs: Seq<ProcView>) -> bool {
    forall|i: int, j: int|
        0 <= i < j < procs.len() ==> !text::before(
            (#[trigger] procs[j]).name,
            (#[trigger] procs[i]).name,
        )
}

impl ProcConfig {
    pub fn command(&self) -> (command: Option<String>)
        ensures
            app::optional_text(command) == command_of(*self),
    {
        if let Some(shell) = &self.shell {
            return Some(shell.clone());
        }
        match &self.cmd {
            Some(args) => Some(text::join(args, " ")),
            None => None,
        }
    }
}

impl Config {
    /// The processes that the entries describe.
    pub open spec fn described(self) -> Seq<ProcView> {
        Seq::new(self.procs@.len(), |i: int| described_proc(self.procs@[i]))
    }

    /// No name occurs twice.
    pub open spec fn wf(self) -> bool {
        app::distinct_names(self.described())
    }

    /// The processes as they are at the start, ordered by name.
    pub fn initial_procs(&self) -> (procs: Result<Vec<Proc>, StartError>)
        ensures
            match procs {
                Ok(list) => {
                    &&& self.procs@.len() > 0
                    &&& in_order(app::proc_views(list@))
                    &&& app::proc_views(list@).to_multiset() == self.described().to_multiset()
                },
                Err(e) => self.procs@.len() == 0 && e == StartError::NoProcs,
            },
    {
        if self.procs.len() == 0 {
            return Err(StartError::NoProcs);
        }
        let mut list: Vec<Proc> = Vec::new();
        let mut i: usize = 0;
        proof {
            self.described().to_multiset_ensures();
            assert(app::proc_views(list@) == self.described().take(0));
        }
        while i < self.procs.len()
            invariant
                i <= self.procs.len(),
                in_order(app::proc_views(list@)),
                app::proc_views(list@).to_multiset() == self.described().take(
                    i as int,
                ).to_multiset(),
            decreases self.procs.len() - i,
        {
            let ghost before = app::proc_views(list@);
            let entry: &NamedProc = &self.procs[i];
            let cmd: String = match entry.config.command() {
                Some(cmd) => cmd,
                None => "echo 'no command'".to_owned(),
            };
            let proc: Proc = Proc {
                name: entry.name.clone(),
                cmd,
                status: ProcStatus::Running,
                is_shown: false,
            };
            let ghost added = proc@;
            let place: usize = insertion_place(&list, proc.name.as_str());
            list.insert(place, proc);
            proof {
                assert(added == self.described()[i as int]);
                assert(app::proc_views(list@) == before.insert(place as int, added));
                lemma_insert_in_order(before, place as int, added);
                before.to_multiset_ensures();
                vstd::seq_lib::to_multiset_insert(before, place as int, added);
                let taken = self.described().take(i as int);
                taken.to_multiset_ensures();
                assert(self.described().take(i + 1) == taken.push(added));
            }
            i += 1;
        }
        assert(self.described().take(i as int) == self.described());
        Ok(list)
    }
}

/// Where `name` goes among the ordered names of `list`: behind those that it
/// does not come before.
fn insertion_place(list: &Vec<Proc>, name: &str) -> (place: usize)
    requires
        in_order(app::proc_views(list@)),
    ensures
        place <= list.len(),
        forall|i: int| 0 <= i < place ==> !text::before(name@, (#[trigger] list@[i]).name@),
        place < list.len() ==> text::before(name@, list@[place as int].name@),
{
    let mut place: usize = 0;
    while place < list.len() && !text::comes_before(name, list[place].name.as_str())
        invariant
            place <= list.len(),
            forall|i: int| 0 <= i < place ==> !text::before(name@, (#[trigger] list@[i]).name@),
        decreases list.len() - place,
    {
        place += 1;
    }
    place
}

/// Putting a process behind those that it does not come before, and in front
/// of one that it comes before, keeps the order.
proof fn lemma_insert_in_order(procs: Seq<ProcView>, place: int, added: ProcView)
    requires
        in_order(procs),
        0 <= place <= procs.len(),
        forall|i: int| 0 <= i < place ==> !text::before(added.name, (#[trigger] procs[i]).name),
        place < procs.len() ==> text::before(added.name, procs[place].name),
    ensures
        in_order(procs.insert(place, added)),
{
    let all = procs.insert(place, added);
    assert forall|i: int, j: int| 0 <= i < j < all.len() implies !text::before(
        (#[trigger] all[j]).name,
        (#[trigger] all[i]).name,
    ) by {
        if i == place {
            if text::before(procs[j - 1].name, added.name) {
                text::lemma_before_transitive(
                    procs[j - 1].name,
                    added.name,
                    procs[place].name,
                );
                if j - 1 == place {
                    text::lemma_before_irreflexive(procs[place].name);
                }
            }
        }
    }
}

/// The names that a configuration file can have, the preferred one first.
pub open spec fn config_name(k: int) -> &'static str {
    if k == 0 {
        "mprocs.yml"
    } else if k == 1 {
        "mprocs.yaml"
    } else if k == 2 {
        "tmprocs.yml"
    } else {
        "tmprocs.yaml"
    }
}

/// Whether `present` denied the first `k` names.
pub open spec fn denied<F: Fn(&str) -> bool>(present: F, k: int) -> bool {
    forall|j: int| 0 <= j < k ==> call_ensures(present, (#[trigger] config_name(j),), false)
}

/// The configuration file in the current directory, where `present` tells
/// whether there is a file of a name: the first of the names for which it does.
pub fn find_config<F: Fn(&str) -> bool>(present: F) -> (found: Option<&'static str>)
    requires
        forall|name: &str| call_requires(present, (name,)),
    ensures
        match found {
            Some(name) => exists|k: int|
                0 <= k < 4 && name == #[trigger] config_name(k) && denied(present, k)
                    && call_ensures(present, (config_name(k),), true),
            None => denied(present, 4),
        },
{
    if present("mprocs.yml") {
        assert(config_name(0) == "mprocs.yml");
        return Some("mprocs.yml");
    }
    if present("mprocs.yaml") {
        assert(config_name(1) == "mprocs.yaml");
        return Some("mprocs.yaml");
    }
    if present("tmprocs.yml") {
        assert(config_name(2) == "tmprocs.yml");
        return Some("tmprocs.yml");
    }
    if present("tmprocs.yaml") {
        assert(config_name(3) == "tmprocs.yaml");
        return Some("tmprocs.yaml");
    }
    None
}

} // verus!
