//! The registry of contract methods and its one-way phase flag.
use vstd::prelude::*;
use crate::error::Error;

verus! {

/// One registered method: its opcode, the handler's name, and whether the
/// handler takes a packed argument.
#[derive(Debug, Clone, PartialEq, Eq)]
pub struct Entry {
    pub opcode: u8,
    pub name: String,
    pub has_args: bool,
}

/// The mathematical value of an [`Entry`].
pub ghost struct EntryView {
    pub opcode: u8,
    pub name: Seq<char>,
    pub has_args: bool,
}

impl View for Entry {
    type V = EntryView;

    open spec fn view(&self) -> EntryView {
        EntryView { opcode: self.opcode, name: self.name@, has_args: self.has_args }
    }
}

/// The views of a sequence of entries, in the same order.
pub open spec fn entry_views(entries: Seq<Entry>) -> Seq<EntryView> {
    entries.map_values(|e: Entry| e@)
}

/// Whether some entry of `entries` carries `opcode`.
pub open spec fn has_opcode(entries: Seq<EntryView>, opcode: u8) -> bool {
    exists|i: int| 0 <= i < entries.len() && (#[trigger] entries[i]).opcode == opcode
}

/// No opcode occurs in two entries.
pub open spec fn distinct_opcodes(entries: Seq<EntryView>) -> bool {
    forall|i: int, j: int|
        0 <= i < j < entries.len() ==> (#[trigger] entries[i]).opcode != (#[trigger] entries[j]).opcode
}

/// The methods registered so far, in the order of their registration, and the
/// phase flag: open while methods may register, closed once the entry point
/// has been synthesized.
pub struct Registry {
    entries: Vec<Entry>,
    closed: bool,
}

impl Registry {
    /// The registered entries, oldest first.
    pub closed spec fn entries(&self) -> Seq<EntryView> {
        entry_views(self.entries@)
    }

    /// Whether the registry has been closed.
    pub closed spec fn phase_closed(&self) -> bool {
        self.closed
    }

    /// The registry's invariant: every opcode is registered at most once.
    pub open spec fn wf(&self) -> bool {
        distinct_opcodes(self.entries())
    }

    /// An empty, open registry.
    pub fn new() -> (r: Registry)
        ensures
            r.wf(),
            r.entries() == Seq::<EntryView>::empty(),
            !r.phase_closed(),
    {
        let r = Registry { entries: Vec::new(), closed: false };
        assert(r.entries() =~= Seq::<EntryView>::empty());
        r
    }

    /// Whether the registry has been closed.
    pub fn is_closed(&self) -> (b: bool)
        ensures
            b == self.phase_closed(),
    {
        self.closed
    }

    /// The number of registered methods.
    pub fn len(&self) -> (n: usize)
        ensures
            n == self.entries().len(),
    {
        self.entries.len()
    }

    /// Whether `opcode` is registered.
    pub fn contains(&self, opcode: u8) -> (b: bool)
        ensures
            b == has_opcode(self.entries(), opcode),
    {
        let mut i: usize = 0;
        while i < self.entries.len()
            invariant
                i <= self.entries.len(),
                forall|k: int| 0 <= k < i ==> (#[trigger] self.entries()[k]).opcode != opcode,
            decreases self.entries.len() - i,
        {
            if self.entries[i].opcode == opcode {
                assert(self.entries()[i as int].opcode == opcode);
                return true;
            }
            i += 1;
        }
        false
    }

    /// Records a method under `opcode`. A collision is rejected and leaves the
    /// registry as it was: the first registration stays.
    pub fn register(&mut self, opcode: u8, name: String, has_args: bool) -> (r: Result<(), Error>)
        requires
            old(self).wf(),
        ensures
            final(self).wf(),
            final(self).phase_closed() == old(self).phase_closed(),
            has_opcode(old(self).entries(), opcode) ==> r == Err::<(), Error>(
                Error::DuplicateOpcode { opcode },
            ) && final(self).entries() == old(self).entries(),
            !has_opcode(old(self).entries(), opcode) ==> r == Ok::<(), Error>(())
                && final(self).entries() == old(self).entries().push(
                EntryView { opcode, name: name@, has_args },
            ),
    {
        if self.contains(opcode) {
            return Err(Error::DuplicateOpcode { opcode });
        }
        let ghost before = self.entries();
        let ghost added = EntryView { opcode, name: name@, has_args };
        self.entries.push(Entry { opcode, name, has_args });
        assert(self.entries() =~= before.push(added));
        Ok(())
    }

    /// The registered entries, in the order of their registration.
    pub fn snapshot(&self) -> (v: Vec<Entry>)
        ensures
            entry_views(v@) == self.entries(),
    {
        let mut v: Vec<Entry> = Vec::new();
        let mut i: usize = 0;
        while i < self.entries.len()
            invariant
                i <= self.entries.len(),
                v@.len() == i,
                forall|k: int| 0 <= k < i ==> (#[trigger] v@[k])@ == self.entries@[k]@,
            decreases self.entries.len() - i,
        {
            let e = &self.entries[i];
            v.push(Entry { opcode: e.opcode, name: e.name.clone(), has_args: e.has_args });
            i += 1;
        }
        assert(entry_views(v@) =~= self.entries());
        v
    }

    /// Closes the registry and reports whether it had been closed before.
    pub fn close(&mut self) -> (previous: bool)
        requires
            old(self).wf(),
        ensures
            final(self).wf(),
            previous == old(self).phase_closed(),
            final(self).phase_closed(),
            final(self).entries() == old(self).entries(),
    {
        let previous = self.closed;
        self.closed = true;
        previous
    }
}

} // verus!
