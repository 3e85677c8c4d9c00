//! The closed set of requests a suspended context can make, and the closed
//! set of values it can be resumed with.

use vstd::prelude::*;

verus! {

/// An opaque token for a value kept in interpreter storage.
#[derive(Clone, Copy, Debug, PartialEq, Eq, Structural)]
pub struct Handle {
    pub key: u64,
}

/// Names the one-shot channel that carries a forked task's result.
#[derive(Clone, Copy, Debug, PartialEq, Eq, Structural)]
pub struct JobId {
    pub id: u64,
}

/// What a suspended context asks the scheduler to do.
#[derive(Debug, PartialEq, Eq)]
pub enum Effect {
    /// Give other tasks a turn.
    Nop,
    /// Wait for this many time units.
    Sleep(u64),
    /// Run the callable behind the handle as a concurrent task.
    Fork(Handle),
    /// Fetch the body found at this address.
    Fetch(String),
    /// Wait for the result of a forked task.
    AwaitJob(JobId),
}

/// An effect as contracts see it.
pub enum EffectView {
    Nop,
    Sleep(u64),
    Fork(Handle),
    Fetch(Seq<char>),
    AwaitJob(JobId),
}

/// An effect without its payload.
#[derive(Clone, Copy, Debug, PartialEq, Eq, Structural)]
pub enum EffectKind {
    Nop,
    Sleep,
    Fork,
    Fetch,
    AwaitJob,
}

impl EffectView {
    pub open spec fn kind(self) -> EffectKind {
        match self {
            EffectView::Nop => EffectKind::Nop,
            EffectView::Sleep(_) => EffectKind::Sleep,
            EffectView::Fork(_) => EffectKind::Fork,
            EffectView::Fetch(_) => EffectKind::Fetch,
            EffectView::AwaitJob(_) => EffectKind::AwaitJob,
        }
    }
}

impl View for Effect {
    type V = EffectView;

    open spec fn view(&self) -> EffectView {
        match self {
            Effect::Nop => EffectView::Nop,
            Effect::Sleep(d) => EffectView::Sleep(*d),
            Effect::Fork(h) => EffectView::Fork(*h),
            Effect::Fetch(url) => EffectView::Fetch(url@),
            Effect::AwaitJob(j) => EffectView::AwaitJob(*j),
        }
    }
}

impl Effect {
    /// The effect that only gives up the turn.
    pub fn nop() -> (e: Effect)
        ensures
            e@ == EffectView::Nop,
    {
        Effect::Nop
    }

    /// The effect that waits for `seconds` time units.
    pub fn sleep(seconds: u64) -> (e: Effect)
        ensures
            e@ == EffectView::Sleep(seconds),
    {
        Effect::Sleep(seconds)
    }

    /// The effect that starts `callable` as a concurrent task.
    pub fn fork(callable: Handle) -> (e: Effect)
        ensures
            e@ == EffectView::Fork(callable),
    {
        Effect::Fork(callable)
    }

    /// The effect that fetches the body found at `url`.
    pub fn fetch(url: String) -> (e: Effect)
        ensures
            e@ == EffectView::Fetch(url@),
    {
        Effect::Fetch(url)
    }

    /// Which of the five requests this is.
    pub fn kind(&self) -> (k: EffectKind)
        ensures
            k == self@.kind(),
    {
        match self {
            Effect::Nop => EffectKind::Nop,
            Effect::Sleep(_) => EffectKind::Sleep,
            Effect::Fork(_) => EffectKind::Fork,
            Effect::Fetch(_) => EffectKind::Fetch,
            Effect::AwaitJob(_) => EffectKind::AwaitJob,
        }
    }

    /// A copy with the same payload.
    pub fn duplicate(&self) -> (e: Effect)
        ensures
            e@ == self@,
    {
        match self {
            Effect::Nop => Effect::Nop,
            Effect::Sleep(d) => Effect::Sleep(*d),
            Effect::Fork(h) => Effect::Fork(*h),
            Effect::Fetch(url) => Effect::Fetch(url.clone()),
            Effect::AwaitJob(j) => Effect::AwaitJob(*j),
        }
    }
}

/// What a context is resumed with.
#[derive(Debug, PartialEq, Eq)]
pub enum ResumeData {
    /// Nothing.
    Nil,
    /// The body of a fetch.
    Text(String),
    /// The value a forked task returned.
    Handle(Handle),
    /// The job of a task that was just forked.
    Job(JobId),
}

/// Resume data as contracts see it.
pub enum ResumeView {
    Nil,
    Text(Seq<char>),
    Handle(Handle),
    Job(JobId),
}

impl View for ResumeData {
    type V = ResumeView;

    open spec fn view(&self) -> ResumeView {
        match self {
            ResumeData::Nil => ResumeView::Nil,
            ResumeData::Text(s) => ResumeView::Text(s@),
            ResumeData::Handle(h) => ResumeView::Handle(*h),
            ResumeData::Job(j) => ResumeView::Job(*j),
        }
    }
}

/// The shapes of resume data that answer a request of kind `kind`: nothing
/// for a turn given up or a finished wait, a job for a fork, a text for a
/// fetch, and a handle or nothing for an awaited job.
pub open spec fn answers(kind: EffectKind, data: ResumeView) -> bool {
    match kind {
        EffectKind::Nop => data is Nil,
        EffectKind::Sleep => data is Nil,
        EffectKind::Fork => data is Job,
        EffectKind::Fetch => data is Text,
        EffectKind::AwaitJob => data is Handle || data is Nil,
    }
}

impl ResumeData {
    /// Whether this value is a fitting answer to a request of kind `kind`.
    pub fn answers(&self, kind: EffectKind) -> (r: bool)
        ensures
            r == answers(kind, self@),
    {
        match kind {
            EffectKind::Nop => matches!(self, ResumeData::Nil),
            EffectKind::Sleep => matches!(self, ResumeData::Nil),
            EffectKind::Fork => matches!(self, ResumeData::Job(_)),
            EffectKind::Fetch => matches!(self, ResumeData::Text(_)),
            EffectKind::AwaitJob => matches!(self, ResumeData::Handle(_)) || matches!(
                self,
                ResumeData::Nil
            ),
        }
    }
}

} // verus!
