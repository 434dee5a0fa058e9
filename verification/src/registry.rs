use vstd::prelude::*;

use crate::command::{CadencyCommand, CommandMetadata, MetadataModel};

verus! {

/// The process's authoritative collection of registered commands, keyed by
/// name: built once at startup, read-only thereafter. Both the registration
/// protocol and the dispatch router read the same entries; no entry is ever
/// mutated after insertion.
#[derive(Debug)]
pub struct Registry {
    entries: Vec<CommandMetadata>,
}

impl Registry {
    /// The metadata of the registered commands, in registration order.
    pub closed spec fn entries_model(&self) -> Seq<MetadataModel> {
        self.entries@.map_values(|m: CommandMetadata| m@)
    }

    /// Command names are unique across the registry.
    pub open spec fn wf(&self) -> bool {
        forall|i: int, j: int|
            0 <= i < j < self.entries_model().len() ==> self.entries_model()[i].name
                != self.entries_model()[j].name
    }

    /// Whether some registered command bears the given name.
    pub open spec fn contains_name(&self, name: Seq<char>) -> bool {
        exists|i: int|
            0 <= i < self.entries_model().len() && self.entries_model()[i].name == name
    }

    /// An empty registry.
    pub fn new() -> (r: Registry)
        ensures
            r.entries_model() == Seq::<MetadataModel>::empty(),
            r.wf(),
    {
        let r = Registry { entries: Vec::new() };
        proof {
            assert(r.entries_model() =~= Seq::<MetadataModel>::empty());
        }
        r
    }

    /// The number of registered commands.
    pub fn len(&self) -> (r: usize)
        ensures
            r == self.entries_model().len(),
    {
        self.entries.len()
    }

    /// The metadata of the command at the given position.
    pub fn get(&self, i: usize) -> (r: &CommandMetadata)
        requires
            i < self.entries_model().len(),
        ensures
            r@ == self.entries_model()[i as int],
    {
        &self.entries[i]
    }

    /// Finds the position of the command with the given name, by exact,
    /// case-sensitive comparison; `None` when no registered command bears it.
    pub fn lookup(&self, name: &String) -> (r: Option<usize>)
        ensures
            match r {
                Some(i) => i < self.entries_model().len() && self.entries_model()[i as int].name
                    == name@,
                None => !self.contains_name(name@),
            },
            r is Some <==> self.contains_name(name@),
    {
        let mut i: usize = 0;
        while i < self.entries.len()
            invariant
                i <= self.entries_model().len(),
                forall|j: int| 0 <= j < i ==> self.entries_model()[j].name != name@,
            decreases self.entries_model().len() - i,
        {
            if self.entries[i].name == *name {
                return Some(i);
            }
            i += 1;
        }
        None
    }

    /// Adds a command's metadata under its name. A name already registered is
    /// rejected: nothing is added and the registry is unchanged, so names stay
    /// unique.
    pub fn insert(&mut self, meta: CommandMetadata) -> (added: bool)
        requires
            old(self).wf(),
        ensures
            final(self).wf(),
            added == !old(self).contains_name(meta@.name),
            added ==> final(self).entries_model() == old(self).entries_model().push(meta@),
            !added ==> final(self).entries_model() == old(self).entries_model(),
    {
        let taken = self.lookup(&meta.name);
        match taken {
            Some(_) => false,
            None => {
                let ghost olds = self.entries_model();
                self.entries.push(meta);
                proof {
                    let news = self.entries_model();
                    assert(news =~= olds.push(meta@));
                    assert forall|i: int, j: int|
                        0 <= i < j < news.len() implies news[i].name != news[j].name by {
                        if j < olds.len() as int {
                            assert(news[i] == olds[i] && news[j] == olds[j]);
                        } else {
                            assert(news[j] == meta@);
                            assert(news[i] == olds[i]);
                            assert(!(0 <= i < olds.len() && olds[i].name == meta@.name));
                        }
                    }
                }
                true
            },
        }
    }

    /// Registers a command instance: collects its metadata and adds it under
    /// its name, rejecting a duplicate name without change.
    pub fn register_command<C: CadencyCommand>(&mut self, command: &C) -> (added: bool)
        requires
            old(self).wf(),
        ensures
            final(self).wf(),
            added == !old(self).contains_name(command.spec_metadata().name),
            added ==> final(self).entries_model() == old(self).entries_model().push(
                command.spec_metadata(),
            ),
            !added ==> final(self).entries_model() == old(self).entries_model(),
    {
        let meta = command.metadata();
        self.insert(meta)
    }
}

} // verus!
