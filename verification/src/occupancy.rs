//! Who is inside the interpreter.
//!
//! The interpreter is one shared resource. A task enters it to resume a
//! context or to create one, and leaves before it waits for anything. The
//! record is kept beside the interpreter and notes the task that is inside.

use vstd::prelude::*;

verus! {

/// Notes which task, if any, is inside the interpreter.
#[derive(Debug)]
pub struct Occupancy {
    holder: Option<u64>,
}

impl Occupancy {
    /// The task inside the interpreter, if there is one.
    pub closed spec fn holder(&self) -> Option<u64> {
        self.holder
    }

    /// A record with nobody inside.
    pub fn new() -> (g: Occupancy)
        ensures
            g.holder() is None,
    {
        Occupancy { holder: None }
    }

    /// Whether nobody is inside.
    pub fn is_free(&self) -> (r: bool)
        ensures
            r == (self.holder() is None),
    {
        self.holder.is_none()
    }

    /// The task inside the interpreter, if there is one.
    pub fn occupant(&self) -> (r: Option<u64>)
        ensures
            r == self.holder(),
    {
        self.holder
    }

    /// Lets `task` in if nobody is inside. Otherwise nothing changes, and
    /// the result is `false`.
    pub fn enter(&mut self, task: u64) -> (entered: bool)
        ensures
            entered == (old(self).holder() is None),
            entered ==> final(self).holder() == Some(task),
            !entered ==> final(self).holder() == old(self).holder(),
    {
        if self.holder.is_none() {
            self.holder = Some(task);
            true
        } else {
            false
        }
    }

    /// Lets `task` out again. If `task` is not the one inside nothing
    /// changes, and the result is `false`.
    pub fn leave(&mut self, task: u64) -> (left: bool)
        ensures
            left == (old(self).holder() == Some(task)),
            left ==> final(self).holder() is None,
            !left ==> final(self).holder() == old(self).holder(),
    {
        match self.holder {
            Some(inside) => {
                if inside == task {
                    self.holder = None;
                    true
                } else {
                    false
                }
            },
            None => false,
        }
    }
}

} // verus!
