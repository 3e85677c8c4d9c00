//! The lifetime of handles.
//!
//! A handle stands for a value that must outlive the resume call that made
//! it: a callable waiting to be forked, a return value waiting to be taken.
//! The registry counts the holders of each handle. A handle nobody holds is
//! unreachable; it is swept away by `expire`, once in every resume cycle, and
//! its slot is used again. A handle that is still held is never swept.

use vstd::prelude::*;
use crate::effect::Handle;

verus! {

/// One slot of the registry.
#[derive(Clone, Copy, Debug, PartialEq, Eq, Structural)]
pub enum Entry {
    /// Nothing is kept here.
    Free,
    /// A value is kept here for this many holders.
    Held(u64),
}

/// Whether `handle` stands for a kept value.
pub open spec fn spec_live(slots: Seq<Entry>, handle: Handle) -> bool {
    handle.key < slots.len() && slots[handle.key as int] is Held
}

/// The lowest free slot, or the length if none is free.
pub open spec fn spec_first_free(slots: Seq<Entry>) -> int
    decreases slots.len(),
{
    if slots.len() == 0 {
        0
    } else if slots[0] is Free {
        0
    } else {
        1 + spec_first_free(slots.skip(1))
    }
}

/// A slot after the sweep: a value nobody holds is gone, all else stays.
pub open spec fn spec_swept(entry: Entry) -> Entry {
    if entry == Entry::Held(0) {
        Entry::Free
    } else {
        entry
    }
}

/// The registry after the sweep.
pub open spec fn spec_sweep(slots: Seq<Entry>) -> Seq<Entry> {
    Seq::new(slots.len(), |i: int| spec_swept(slots[i]))
}

/// The slots with `entry` stored at `at`, which may be one past the end.
pub open spec fn spec_store(slots: Seq<Entry>, at: int, entry: Entry) -> Seq<Entry> {
    if at < slots.len() {
        slots.update(at, entry)
    } else {
        slots.push(entry)
    }
}

/// Counts the holders of every handle.
#[derive(Debug)]
pub struct Registry {
    slots: Vec<Entry>,
}

impl View for Registry {
    type V = Seq<Entry>;

    closed spec fn view(&self) -> Seq<Entry> {
        self.slots@
    }
}

impl Registry {
    /// A registry that keeps nothing.
    pub fn new() -> (r: Registry)
        ensures
            r@ == Seq::<Entry>::empty(),
    {
        Registry { slots: Vec::new() }
    }

    /// How many slots there are, free ones included.
    pub fn capacity(&self) -> (n: usize)
        ensures
            n == self@.len(),
    {
        self.slots.len()
    }

    /// The number of holders of `handle`, if it stands for a kept value.
    pub fn holders(&self, handle: Handle) -> (r: Option<u64>)
        ensures
            r == (if spec_live(self@, handle) {
                Some(self@[handle.key as int]->Held_0)
            } else {
                None
            }),
    {
        if handle.key >= self.slots.len() as u64 {
            return None;
        }
        match self.slots[handle.key as usize] {
            Entry::Held(n) => Some(n),
            Entry::Free => None,
        }
    }

    /// Keeps a new value for one holder, in the lowest free slot, and names
    /// the slot. No other slot changes.
    pub fn keep(&mut self) -> (handle: Handle)
        ensures
            handle.key == spec_first_free(old(self)@),
            final(self)@ == spec_store(old(self)@, handle.key as int, Entry::Held(1)),
            !spec_live(old(self)@, handle),
    {
        let mut i: usize = 0;
        assert(self.slots@.skip(0) =~= self.slots@);
        while i < self.slots.len()
            invariant
                i <= self.slots.len(),
                self.slots@ == old(self).slots@,
                spec_first_free(self.slots@) == i + spec_first_free(self.slots@.skip(i as int)),
            decreases self.slots.len() - i,
        {
            let ghost rest = self.slots@.skip(i as int);
            assert(rest[0] == self.slots@[i as int]);
            assert(rest.skip(1) =~= self.slots@.skip(i + 1));
            if let Entry::Free = self.slots[i] {
                self.slots.set(i, Entry::Held(1));
                return Handle { key: i as u64 };
            }
            i += 1;
        }
        assert(self.slots@.skip(i as int).len() == 0);
        self.slots.push(Entry::Held(1));
        Handle { key: i as u64 }
    }

    /// Adds a holder to `handle`. The result is `false`, and nothing
    /// changes, if the handle stands for nothing or the count is full.
    pub fn share(&mut self, handle: Handle) -> (shared: bool)
        ensures
            shared == (spec_live(old(self)@, handle) && old(self)@[handle.key as int]->Held_0
                < u64::MAX),
            shared ==> final(self)@ == old(self)@.update(
                handle.key as int,
                Entry::Held((old(self)@[handle.key as int]->Held_0 + 1) as u64),
            ),
            !shared ==> final(self)@ == old(self)@,
    {
        match self.holders(handle) {
            Some(n) => {
                if n < u64::MAX {
                    self.slots.set(handle.key as usize, Entry::Held(n + 1));
                    true
                } else {
                    false
                }
            },
            None => false,
        }
    }

    /// Takes a holder away from `handle`. The value stays until the next
    /// sweep even when the last holder is gone. The result is `false`, and
    /// nothing changes, if the handle stands for nothing or has no holder.
    pub fn release(&mut self, handle: Handle) -> (released: bool)
        ensures
            released == (spec_live(old(self)@, handle) && old(self)@[handle.key as int]->Held_0
                > 0),
            released ==> final(self)@ == old(self)@.update(
                handle.key as int,
                Entry::Held((old(self)@[handle.key as int]->Held_0 - 1) as u64),
            ),
            !released ==> final(self)@ == old(self)@,
    {
        match self.holders(handle) {
            Some(n) => {
                if n > 0 {
                    self.slots.set(handle.key as usize, Entry::Held(n - 1));
                    true
                } else {
                    false
                }
            },
            None => false,
        }
    }

    /// Sweeps away every value that nobody holds. A value that is held
    /// stays where it is with its holders, and afterwards no slot holds an
    /// unreachable value.
    pub fn expire(&mut self)
        ensures
            final(self)@ == spec_sweep(old(self)@),
    {
        let mut i: usize = 0;
        while i < self.slots.len()
            invariant
                i <= self.slots.len(),
                self.slots@.len() == old(self).slots@.len(),
                forall|j: int| 0 <= j < i ==> #[trigger] self.slots@[j] == spec_swept(old(self).slots@[j]),
                forall|j: int|
                    i <= j < self.slots@.len() ==> #[trigger] self.slots@[j] == old(self).slots@[j],
            decreases self.slots.len() - i,
        {
            if let Entry::Held(0) = self.slots[i] {
                self.slots.set(i, Entry::Free);
            }
            i += 1;
        }
        assert(self.slots@ =~= spec_sweep(old(self).slots@));
    }
}

/// No handle is lost early and none lingers. A handle with a holder stands
/// for the same value with the same holders after a sweep, and after a sweep
/// every handle that stands for a value has a holder. A second sweep right
/// after the first changes nothing.
pub proof fn lemma_sweep(slots: Seq<Entry>, handle: Handle)
    ensures
        spec_live(slots, handle) && slots[handle.key as int]->Held_0 > 0 ==> spec_live(
            spec_sweep(slots),
            handle,
        ) && spec_sweep(slots)[handle.key as int] == slots[handle.key as int],
        spec_live(spec_sweep(slots), handle) ==> spec_live(slots, handle) && slots[handle.key as int]
            ->Held_0 > 0,
        spec_sweep(spec_sweep(slots)) == spec_sweep(slots),
{
    assert(spec_sweep(spec_sweep(slots)) =~= spec_sweep(slots));
}

} // verus!
