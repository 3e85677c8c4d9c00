//! Names for tasks and their jobs.
//!
//! Every fork makes one child task and one job, paired for life. The spawner
//! hands out their names so that no two tasks, and no two jobs, share one.

use vstd::prelude::*;
use crate::driver::{spec_fresh, Driver};
use crate::effect::JobId;
use crate::job::{JobChannel, Slot};

verus! {

/// Hands out the names of tasks and jobs, each once.
#[derive(Debug)]
pub struct Spawner {
    next: u64,
}

/// The two halves of a fork.
#[derive(Debug)]
pub struct Forked {
    /// The driver of the child task.
    pub child: Driver,
    /// The channel of the job the child reports through.
    pub channel: JobChannel,
}

impl Spawner {
    /// How many names have been handed out. Every name handed out so far is
    /// below this number.
    pub closed spec fn issued(&self) -> nat {
        self.next as nat
    }

    /// A spawner that has handed out nothing.
    pub fn new() -> (s: Spawner)
        ensures
            s.issued() == 0,
    {
        Spawner { next: 0 }
    }

    /// The driver of a root task: a fresh name and no job. `None` once the
    /// names have run out; then nothing changes.
    pub fn root(&mut self) -> (r: Option<Driver>)
        ensures
            old(self).issued() < u64::MAX ==> r is Some && r->0@ == spec_fresh(
                old(self).issued() as u64,
                None,
            ) && final(self).issued() == old(self).issued() + 1,
            old(self).issued() >= u64::MAX ==> r is None && final(self).issued() == old(
                self,
            ).issued(),
    {
        if self.next == u64::MAX {
            return None;
        }
        let id: u64 = self.next;
        self.next = id + 1;
        Some(Driver::new(id, None))
    }

    /// Makes the child task of a fork and the open channel of its job. Both
    /// carry the same fresh name. `None` once the names have run out; then nothing changes.
    pub fn fork(&mut self) -> (r: Option<Forked>)
        ensures
            old(self).issued() < u64::MAX ==> r is Some && ({
                let name = old(self).issued() as u64;
                &&& r->0.child@ == spec_fresh(name, Some(JobId { id: name }))
                &&& r->0.channel.id() == (JobId { id: name })
                &&& r->0.channel.slot() == Slot::Open
                &&& final(self).issued() == old(self).issued() + 1
            }),
            old(self).issued() >= u64::MAX ==> r is None && final(self).issued() == old(
                self,
            ).issued(),
    {
        if self.next == u64::MAX {
            return None;
        }
        let name: u64 = self.next;
        self.next = name + 1;
        let job = JobId { id: name };
        Some(Forked { child: Driver::new(name, Some(job)), channel: JobChannel::open(job) })
    }
}

/// Names are never handed out twice: a task made when `earlier` names had
/// been issued and one made when `later` names had been issued differ in
/// name, and so do their jobs.
pub proof fn lemma_names_differ(earlier: nat, later: nat)
    requires
        earlier < later,
        later < u64::MAX,
    ensures
        spec_fresh(earlier as u64, None).id != spec_fresh(later as u64, None).id,
        (JobId { id: earlier as u64 }) != (JobId { id: later as u64 }),
{
}

} // verus!
