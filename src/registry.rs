//! The table from command names to commands: built once, looked up by exact
//! name, and refusing a second command under a name that is taken.
use vstd::prelude::*;
use crate::commands::{all_commands, spec_name, CommandKind};
use crate::words::same_text;

verus! {

/// One name and the command registered under it.
pub struct Entry {
    pub name: String,
    pub kind: CommandKind,
}

/// A table of commands, looked up by exact name.
pub struct Registry {
    entries: Vec<Entry>,
}

/// Two entries never share a name.
pub open spec fn names_unique(es: Seq<Entry>) -> bool {
    forall|i: int, j: int| 0 <= i < es.len() && 0 <= j < es.len() && i != j ==> es[i].name@ != es[j].name@
}

/// The table that a list of entries with distinct names stands for.
pub open spec fn table_of(es: Seq<Entry>) -> Map<Seq<char>, CommandKind> {
    Map::new(
        |n: Seq<char>| exists|i: int| 0 <= i < es.len() && es[i].name@ == n,
        |n: Seq<char>| es[choose|i: int| 0 <= i < es.len() && es[i].name@ == n].kind,
    )
}

impl View for Registry {
    type V = Map<Seq<char>, CommandKind>;

    closed spec fn view(&self) -> Map<Seq<char>, CommandKind> {
        table_of(self.entries@)
    }
}

/// Why a registration was refused.
#[derive(Debug, PartialEq, Eq, Structural)]
pub enum RegisterError {
    /// The name is taken already.
    Duplicate,
}

impl Registry {
    /// The registry's entries keep distinct names.
    pub closed spec fn wf(&self) -> bool {
        names_unique(self.entries@)
    }

    /// An empty registry.
    pub fn new() -> (r: Registry)
        ensures
            r.wf(),
            r@ == Map::<Seq<char>, CommandKind>::empty(),
    {
        let r = Registry { entries: Vec::new() };
        assert(r@ =~= Map::<Seq<char>, CommandKind>::empty());
        r
    }

    /// Where `name` stands among the entries, if it does.
    fn position(&self, name: &str) -> (r: Option<usize>)
        requires
            self.wf(),
        ensures
            match r {
                Some(i) => i < self.entries@.len() && self.entries@[i as int].name@ == name@,
                None => !self@.contains_key(name@),
            },
    {
        let mut i: usize = 0;
        while i < self.entries.len()
            invariant
                i <= self.entries@.len(),
                forall|j: int| 0 <= j < i ==> self.entries@[j].name@ != name@,
            decreases self.entries@.len() - i,
        {
            if same_text(self.entries[i].name.as_str(), name) {
                return Some(i);
            }
            i = i + 1;
        }
        None
    }

    /// The command registered under exactly `name` (case included).
    pub fn lookup(&self, name: &str) -> (r: Option<CommandKind>)
        requires
            self.wf(),
        ensures
            r == (if self@.contains_key(name@) { Some(self@[name@]) } else { None::<CommandKind> }),
    {
        match self.position(name) {
            Some(i) => {
                let ghost es = self.entries@;
                assert(self@.contains_key(name@));
                let ghost c = choose|j: int| 0 <= j < es.len() && es[j].name@ == name@;
                assert(c == i as int);
                Some(self.entries[i].kind)
            },
            None => None,
        }
    }

    /// Registers `kind` under `name`; a name that is taken already is refused
    /// and leaves the registry as it was.
    pub fn register(&mut self, name: &str, kind: CommandKind) -> (r: Result<(), RegisterError>)
        requires
            old(self).wf(),
        ensures
            final(self).wf(),
            old(self)@.contains_key(name@) ==> r == Err::<(), RegisterError>(RegisterError::Duplicate)
                && final(self)@ == old(self)@,
            !old(self)@.contains_key(name@) ==> r is Ok && final(self)@ == old(self)@.insert(
                name@,
                kind,
            ),
    {
        match self.position(name) {
            Some(_) => Err(RegisterError::Duplicate),
            None => {
                let ghost before = self.entries@;
                self.entries.push(Entry { name: String::from_str(name), kind });
                let ghost es = self.entries@;
                assert(es.len() == before.len() + 1);
                assert forall|i: int| 0 <= i < before.len() implies es[i] == before[i] by {}
                let ghost last = before.len() as int;
                assert forall|n: Seq<char>| #[trigger] table_of(es).contains_key(n)
                    == old(self)@.insert(name@, kind).contains_key(n) by {
                    if n == name@ {
                        assert(es[last].name@ == n);
                    } else if table_of(es).contains_key(n) {
                        let j = choose|j: int| 0 <= j < es.len() && es[j].name@ == n;
                        assert(before[j].name@ == n);
                    } else if old(self)@.contains_key(n) {
                        let j = choose|j: int| 0 <= j < before.len() && before[j].name@ == n;
                        assert(es[j].name@ == n);
                    }
                }
                assert forall|n: Seq<char>| #[trigger] table_of(es).contains_key(n) implies
                    table_of(es)[n] == old(self)@.insert(name@, kind)[n] by {
                    let j = choose|j: int| 0 <= j < es.len() && es[j].name@ == n;
                    if n == name@ {
                        assert(j == last);
                    } else {
                        assert(before[j].name@ == n);
                        let j0 = choose|j0: int| 0 <= j0 < before.len() && before[j0].name@ == n;
                        assert(j0 == j);
                    }
                }
                assert(table_of(es) =~= old(self)@.insert(name@, kind));
                Ok(())
            },
        }
    }

    /// The registry of every command, each under its own name.
    pub fn standard() -> (r: Registry)
        ensures
            r.wf(),
            forall|k: CommandKind| #[trigger] r@.contains_key(spec_name(k)),
            forall|n: Seq<char>| #[trigger] r@.contains_key(n) ==> spec_name(r@[n]) == n,
    {
        let all = all_commands();
        let mut reg = Registry::new();
        let mut i: usize = 0;
        while i < all.len()
            invariant
                reg.wf(),
                i <= all@.len(),
                forall|j: int| 0 <= j < i ==> reg@.contains_key(spec_name(#[trigger] all@[j])),
                forall|n: Seq<char>| #[trigger] reg@.contains_key(n) ==> spec_name(reg@[n]) == n,
            decreases all@.len() - i,
        {
            let k = all[i];
            let name = k.name();
            let _ = reg.register(name, k);
            i = i + 1;
        }
        assert forall|k: CommandKind| #[trigger] reg@.contains_key(spec_name(k)) by {
            assert(all@.contains(k));
            let j = choose|j: int| 0 <= j < all@.len() && all@[j] == k;
            assert(reg@.contains_key(spec_name(all@[j])));
        }
        reg
    }
}

} // verus!
