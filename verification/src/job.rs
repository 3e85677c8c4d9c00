//! The one-shot result of a forked task.
//!
//! A fork creates one channel. The child task holds the sending end and
//! delivers its outcome through it exactly once, whether or not anyone waits.
//! The forking context holds the job and may wait on it: the first wait takes
//! the outcome, and every later wait finds the channel closed.

use vstd::prelude::*;
use crate::effect::{Effect, EffectView, Handle, JobId};
use crate::error::TaskError;

verus! {

/// What a child task sends when it ends.
#[derive(Clone, Copy, Debug, PartialEq, Eq, Structural)]
pub enum Delivery {
    /// The value the task returned.
    Value(Handle),
    /// The failure that ended the task.
    Failure(TaskError),
}

/// What a look at the receiving end finds.
#[derive(Clone, Copy, Debug, PartialEq, Eq, Structural)]
pub enum Received {
    /// The child still runs and has sent nothing: the waiter must suspend.
    Pending,
    /// The child's outcome, taken out of the channel by this look.
    Delivered(Delivery),
    /// The sending end is gone and nothing is left to take.
    Closed,
}

/// The state of a job's channel.
#[derive(Clone, Copy, Debug, PartialEq, Eq, Structural)]
pub enum Slot {
    /// The child holds the sending end and has sent nothing.
    Open,
    /// The child has sent its outcome and nobody has taken it.
    Full(Delivery),
    /// The sending end is gone and the slot is empty.
    Closed,
}

/// The handle a forking context keeps of its child's result.
#[derive(Clone, Copy, Debug, PartialEq, Eq, Structural)]
pub struct Job {
    pub id: JobId,
}

impl Job {
    /// The request to wait for this job. Waiting is itself an effect, so
    /// that the waiter suspends instead of blocking.
    pub fn wait(&self) -> (e: Effect)
        ensures
            e@ == EffectView::AwaitJob(self.id),
    {
        Effect::AwaitJob(self.id)
    }
}

/// The slot after the child has sent `message` and dropped the sending end.
/// Only an open channel takes a message.
pub open spec fn spec_deliver(slot: Slot, message: Delivery) -> Slot {
    match slot {
        Slot::Open => Slot::Full(message),
        _ => slot,
    }
}

/// The slot after the child has dropped the sending end without sending.
pub open spec fn spec_abandon(slot: Slot) -> Slot {
    match slot {
        Slot::Open => Slot::Closed,
        _ => slot,
    }
}

/// What a look at the receiving end finds, and the slot it leaves.
pub open spec fn spec_receive(slot: Slot) -> (Received, Slot) {
    match slot {
        Slot::Open => (Received::Pending, Slot::Open),
        Slot::Full(message) => (Received::Delivered(message), Slot::Closed),
        Slot::Closed => (Received::Closed, Slot::Closed),
    }
}

/// The single-slot channel between a child task and the holder of its job.
#[derive(Debug)]
pub struct JobChannel {
    id: JobId,
    slot: Slot,
}

impl JobChannel {
    /// The job this channel belongs to.
    pub closed spec fn id(&self) -> JobId {
        self.id
    }

    /// The state of the channel.
    pub closed spec fn slot(&self) -> Slot {
        self.slot
    }

    /// A fresh channel for the job `id`, with nothing sent.
    pub fn open(id: JobId) -> (c: JobChannel)
        ensures
            c.id() == id,
            c.slot() == Slot::Open,
    {
        JobChannel { id, slot: Slot::Open }
    }

    /// The job to hand to the forking context.
    pub fn job(&self) -> (j: Job)
        ensures
            j.id == self.id(),
    {
        Job { id: self.id }
    }

    /// The state of the channel.
    pub fn state(&self) -> (s: Slot)
        ensures
            s == self.slot(),
    {
        self.slot
    }

    /// Sends the child's outcome and drops the sending end. The result says
    /// whether the message was taken: a channel takes one message in its
    /// life, and a later one changes nothing.
    pub fn deliver(&mut self, message: Delivery) -> (sent: bool)
        ensures
            sent == (old(self).slot() == Slot::Open),
            final(self).slot() == spec_deliver(old(self).slot(), message),
            final(self).id() == old(self).id(),
    {
        match self.slot {
            Slot::Open => {
                self.slot = Slot::Full(message);
                true
            },
            _ => false,
        }
    }

    /// Drops the sending end without sending.
    pub fn abandon(&mut self)
        ensures
            final(self).slot() == spec_abandon(old(self).slot()),
            final(self).id() == old(self).id(),
    {
        match self.slot {
            Slot::Open => {
                self.slot = Slot::Closed;
            },
            _ => {},
        }
    }

    /// Looks at the receiving end, and takes the outcome out if it is there.
    pub fn receive(&mut self) -> (r: Received)
        ensures
            (r, final(self).slot()) == spec_receive(old(self).slot()),
            final(self).id() == old(self).id(),
    {
        match self.slot {
            Slot::Open => Received::Pending,
            Slot::Full(message) => {
                self.slot = Slot::Closed;
                Received::Delivered(message)
            },
            Slot::Closed => Received::Closed,
        }
    }
}

/// At most one message is ever delivered: once the child has sent, a second
/// message leaves the channel as it is.
pub proof fn lemma_delivers_once(slot: Slot, first: Delivery, second: Delivery)
    ensures
        spec_deliver(spec_deliver(slot, first), second) == spec_deliver(slot, first),
        spec_deliver(spec_abandon(slot), second) == spec_abandon(slot),
{
}

/// Waiting once on the job of a child that sent `message` finds exactly that
/// message, and waiting a second time finds the channel closed.
pub proof fn lemma_wait_once(message: Delivery)
    ensures
        spec_receive(spec_deliver(Slot::Open, message)).0 == Received::Delivered(message),
        spec_receive(spec_receive(spec_deliver(Slot::Open, message)).1).0 == Received::Closed,
{
}

/// Once the child has ended, by sending or by dropping the sending end, no
/// wait is left pending, however many came before.
pub proof fn lemma_never_blocks_after_end(slot: Slot)
    requires
        slot != Slot::Open,
    ensures
        spec_receive(slot).0 != Received::Pending,
        spec_receive(slot).1 == Slot::Closed,
        spec_receive(spec_receive(slot).1) == (Received::Closed, Slot::Closed),
{
}

} // verus!
