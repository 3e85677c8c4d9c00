//! The control loop of one execution context, as a state machine.
//!
//! A driver is told what happened and answers what to do next. The caller
//! carries the answer out: it resumes the context inside the interpreter,
//! waits for a timer, a response or a job outside of it, and reports back.
//! One cycle is: resume, classify what the context asked for, perform it,
//! and keep the result for the next resume.

use vstd::prelude::*;
use crate::effect::{Effect, EffectKind, EffectView, Handle, JobId, ResumeData, ResumeView};
use crate::error::TaskError;
use crate::occupancy::Occupancy;
use crate::job::{Delivery, Received, Slot, spec_deliver, spec_receive};
use crate::marshal::{classify, spec_classify, PayloadView, ScriptValue, ScriptView};

verus! {

/// How a resume call ended.
#[derive(Debug, PartialEq, Eq)]
pub enum Resumed {
    /// The context suspended with this value and can be resumed again.
    Yielded(ScriptValue),
    /// The context returned; the handle keeps its return value.
    Returned(Handle),
    /// The script raised an error.
    Raised,
}

/// A report of a resume call as contracts see it.
pub enum ResumedView {
    Yielded(ScriptView),
    Returned(Handle),
    Raised,
}

impl View for Resumed {
    type V = ResumedView;

    open spec fn view(&self) -> ResumedView {
        match self {
            Resumed::Yielded(v) => ResumedView::Yielded(v@),
            Resumed::Returned(h) => ResumedView::Returned(*h),
            Resumed::Raised => ResumedView::Raised,
        }
    }
}

/// How the action for an effect ended.
#[derive(Debug, PartialEq, Eq)]
pub enum Outcome {
    /// The task gave up its turn and has it back.
    Yielded,
    /// The timer fired.
    TimerFired,
    /// A child task runs and reports through this job.
    Spawned(JobId),
    /// The whole body of the response.
    Fetched(String),
    /// The fetch failed.
    FetchFailed,
    /// What came out of the awaited job: a delivery, or nothing when the
    /// channel was closed with nothing in it.
    Received(Option<Delivery>),
}

/// An outcome as contracts see it.
pub enum OutcomeView {
    Yielded,
    TimerFired,
    Spawned(JobId),
    Fetched(Seq<char>),
    FetchFailed,
    Received(Option<Delivery>),
}

impl View for Outcome {
    type V = OutcomeView;

    open spec fn view(&self) -> OutcomeView {
        match self {
            Outcome::Yielded => OutcomeView::Yielded,
            Outcome::TimerFired => OutcomeView::TimerFired,
            Outcome::Spawned(j) => OutcomeView::Spawned(*j),
            Outcome::Fetched(body) => OutcomeView::Fetched(body@),
            Outcome::FetchFailed => OutcomeView::FetchFailed,
            Outcome::Received(r) => OutcomeView::Received(*r),
        }
    }
}

/// What the caller is to do next for a task.
#[derive(Debug, PartialEq, Eq)]
pub enum Action {
    /// Enter the interpreter and resume the context.
    Resume,
    /// Give other tasks a turn, then report `Outcome::Yielded`.
    Yield,
    /// Wait this many time units, then report `Outcome::TimerFired`.
    Sleep(u64),
    /// Create a context from the callable and start a driver for it with a
    /// fresh job as its output, then report `Outcome::Spawned` at once.
    Spawn(Handle),
    /// Request this address and report the body, or the failure.
    Get(String),
    /// Receive on this job's channel and report what came out.
    Receive(JobId),
    /// Send this through the task's own job; the task is over.
    Deliver(JobId, Delivery),
    /// The task is over and nobody is told.
    Finish,
    /// End the program with this failure.
    Terminate(TaskError),
}

/// An action as contracts see it.
pub enum ActionView {
    Resume,
    Yield,
    Sleep(u64),
    Spawn(Handle),
    Get(Seq<char>),
    Receive(JobId),
    Deliver(JobId, Delivery),
    Finish,
    Terminate(TaskError),
}

impl View for Action {
    type V = ActionView;

    open spec fn view(&self) -> ActionView {
        match self {
            Action::Resume => ActionView::Resume,
            Action::Yield => ActionView::Yield,
            Action::Sleep(d) => ActionView::Sleep(*d),
            Action::Spawn(h) => ActionView::Spawn(*h),
            Action::Get(url) => ActionView::Get(url@),
            Action::Receive(j) => ActionView::Receive(*j),
            Action::Deliver(j, d) => ActionView::Deliver(*j, *d),
            Action::Finish => ActionView::Finish,
            Action::Terminate(e) => ActionView::Terminate(*e),
        }
    }
}

/// Where a task stands in its life.
#[derive(Debug, PartialEq, Eq)]
pub enum Phase {
    /// Waiting to be resumed with this value.
    Ready(ResumeData),
    /// Inside the interpreter, in a resume call.
    Resuming,
    /// Suspended on this effect, issued at this time.
    Suspended(Effect, u64),
    /// Returned with the value behind this handle.
    Finished(Handle),
    /// Ended by this failure.
    Failed(TaskError),
}

/// A phase as contracts see it.
pub enum PhaseView {
    Ready(ResumeView),
    Resuming,
    Suspended(EffectView, u64),
    Finished(Handle),
    Failed(TaskError),
}

impl View for Phase {
    type V = PhaseView;

    open spec fn view(&self) -> PhaseView {
        match self {
            Phase::Ready(data) => PhaseView::Ready(data@),
            Phase::Resuming => PhaseView::Resuming,
            Phase::Suspended(effect, since) => PhaseView::Suspended(effect@, *since),
            Phase::Finished(h) => PhaseView::Finished(*h),
            Phase::Failed(e) => PhaseView::Failed(*e),
        }
    }
}

/// A driver as contracts see it.
pub struct DriverView {
    /// The task's name among all tasks.
    pub id: u64,
    /// The job that takes the task's result; the root task has none.
    pub output: Option<JobId>,
    /// Where the task stands.
    pub phase: PhaseView,
}

/// A task that was just made and has not run: it waits for its first
/// resume, which hands it nothing.
pub open spec fn spec_fresh(id: u64, output: Option<JobId>) -> DriverView {
    DriverView { id, output, phase: PhaseView::Ready(ResumeView::Nil) }
}

/// The action that carries out each effect.
pub open spec fn action_for(effect: EffectView) -> ActionView {
    match effect {
        EffectView::Nop => ActionView::Yield,
        EffectView::Sleep(d) => ActionView::Sleep(d),
        EffectView::Fork(f) => ActionView::Spawn(f),
        EffectView::Fetch(url) => ActionView::Get(url),
        EffectView::AwaitJob(j) => ActionView::Receive(j),
    }
}

/// The outcomes that the action for an effect of kind `kind` can have.
pub open spec fn outcome_fits(kind: EffectKind, outcome: OutcomeView) -> bool {
    match kind {
        EffectKind::Nop => outcome is Yielded,
        EffectKind::Sleep => outcome is TimerFired,
        EffectKind::Fork => outcome is Spawned,
        EffectKind::Fetch => outcome is Fetched || outcome is FetchFailed,
        EffectKind::AwaitJob => outcome is Received,
    }
}

/// Whether the task has ended.
pub open spec fn over(d: DriverView) -> bool {
    d.phase is Finished || d.phase is Failed
}

/// Whether the task is suspended on an effect that `outcome` can end.
pub open spec fn spec_accepts(d: DriverView, outcome: OutcomeView) -> bool {
    d.phase is Suspended && outcome_fits(d.phase->Suspended_0.kind(), outcome)
}

/// The time that has passed from `since` to `now`; none if the clock ran
/// backwards.
pub open spec fn elapsed(since: u64, now: u64) -> int {
    if now >= since {
        now - since
    } else {
        0
    }
}

/// The task after it entered the interpreter.
pub open spec fn spec_begin(d: DriverView) -> DriverView {
    DriverView { phase: PhaseView::Resuming, ..d }
}

/// The end of a task by failure. A failure that can be confined to the task
/// goes to its job, if it has one. Any other failure, and any failure of the
/// root task, ends the program.
pub open spec fn spec_fail(d: DriverView, error: TaskError) -> (DriverView, ActionView) {
    (
        DriverView { phase: PhaseView::Failed(error), ..d },
        if error.spec_recoverable() && d.output is Some {
            ActionView::Deliver(d.output->0, Delivery::Failure(error))
        } else {
            ActionView::Terminate(error)
        },
    )
}

/// The task waiting to be resumed with `data`.
pub open spec fn spec_ready(d: DriverView, data: ResumeView) -> (DriverView, ActionView) {
    (DriverView { phase: PhaseView::Ready(data), ..d }, ActionView::Resume)
}

/// The task and the next action after a resume call that ended as `resumed`
/// at time `now`.
pub open spec fn spec_end_resume(d: DriverView, resumed: ResumedView, now: u64) -> (
    DriverView,
    ActionView,
) {
    match resumed {
        ResumedView::Yielded(value) => match spec_classify(value) {
            Some(effect) => (
                DriverView { phase: PhaseView::Suspended(effect, now), ..d },
                action_for(effect),
            ),
            None => spec_fail(d, TaskError::ProtocolViolation),
        },
        ResumedView::Returned(value) => (
            DriverView { phase: PhaseView::Finished(value), ..d },
            match d.output {
                Some(job) => ActionView::Deliver(job, Delivery::Value(value)),
                None => ActionView::Finish,
            },
        ),
        ResumedView::Raised => spec_fail(d, TaskError::RuntimeScript),
    }
}

/// The task and the next action after the action for its effect ended as
/// `outcome` at time `now`. A timer that fired early is set again for the
/// time that is left, and the task stays suspended.
pub open spec fn spec_complete(d: DriverView, outcome: OutcomeView, now: u64) -> (
    DriverView,
    ActionView,
)
    recommends
        spec_accepts(d, outcome),
{
    match outcome {
        OutcomeView::Yielded => spec_ready(d, ResumeView::Nil),
        OutcomeView::TimerFired => {
            let duration = d.phase->Suspended_0->Sleep_0;
            let since = d.phase->Suspended_1;
            if since + duration <= now {
                spec_ready(d, ResumeView::Nil)
            } else {
                (d, ActionView::Sleep((duration - elapsed(since, now)) as u64))
            }
        },
        OutcomeView::Spawned(job) => spec_ready(d, ResumeView::Job(job)),
        OutcomeView::Fetched(body) => spec_ready(d, ResumeView::Text(body)),
        OutcomeView::FetchFailed => spec_fail(d, TaskError::Network),
        OutcomeView::Received(Some(Delivery::Value(value))) => spec_ready(
            d,
            ResumeView::Handle(value),
        ),
        OutcomeView::Received(Some(Delivery::Failure(error))) => spec_fail(d, error),
        OutcomeView::Received(None) => spec_ready(d, ResumeView::Nil),
    }
}

/// The report that a look at a job's channel amounts to: none while the
/// child still runs, since the waiter then stays suspended.
pub open spec fn spec_outcome_of(received: Received) -> Option<OutcomeView> {
    match received {
        Received::Pending => None,
        Received::Delivered(message) => Some(OutcomeView::Received(Some(message))),
        Received::Closed => Some(OutcomeView::Received(None)),
    }
}

/// Whether what a task believes agrees with the record: a task in a resume
/// call is the one the record has inside.
pub open spec fn consistent(d: DriverView, holder: Option<u64>) -> bool {
    d.phase is Resuming ==> holder == Some(d.id)
}

impl Outcome {
    /// Turns a look at a job's channel into a report for the waiting task.
    /// While the child still runs there is nothing to report.
    pub fn from_received(received: Received) -> (r: Option<Outcome>)
        ensures
            match spec_outcome_of(received) {
                Some(o) => r is Some && r->0@ == o,
                None => r is None,
            },
    {
        match received {
            Received::Pending => None,
            Received::Delivered(message) => Some(Outcome::Received(Some(message))),
            Received::Closed => Some(Outcome::Received(None)),
        }
    }
}

/// Drives one execution context from its first resume to its end.
#[derive(Debug)]
pub struct Driver {
    id: u64,
    output: Option<JobId>,
    phase: Phase,
}

impl View for Driver {
    type V = DriverView;

    closed spec fn view(&self) -> DriverView {
        DriverView { id: self.id, output: self.output, phase: self.phase@ }
    }
}

impl Driver {
    /// A driver for a fresh context. The first resume hands it nothing.
    pub fn new(id: u64, output: Option<JobId>) -> (d: Driver)
        ensures
            d@ == spec_fresh(id, output),
    {
        Driver { id, output, phase: Phase::Ready(ResumeData::Nil) }
    }

    /// The task's name among all tasks.
    pub fn id(&self) -> (r: u64)
        ensures
            r == self@.id,
    {
        self.id
    }

    /// The job that takes the task's result, if it has one.
    pub fn output(&self) -> (r: Option<JobId>)
        ensures
            r == self@.output,
    {
        self.output
    }

    /// Whether the context waits to be resumed.
    pub fn is_ready(&self) -> (r: bool)
        ensures
            r == (self@.phase is Ready),
    {
        matches!(self.phase, Phase::Ready(_))
    }

    /// Whether the task is in a resume call.
    pub fn is_resuming(&self) -> (r: bool)
        ensures
            r == (self@.phase is Resuming),
    {
        matches!(self.phase, Phase::Resuming)
    }

    /// Whether the task has ended, by returning or by failing.
    pub fn is_over(&self) -> (r: bool)
        ensures
            r == over(self@),
    {
        matches!(self.phase, Phase::Finished(_)) || matches!(self.phase, Phase::Failed(_))
    }

    /// The handle of the value the task returned, once it has.
    pub fn result(&self) -> (r: Option<Handle>)
        ensures
            r == (match self@.phase {
                PhaseView::Finished(h) => Some(h),
                _ => None,
            }),
    {
        match &self.phase {
            Phase::Finished(h) => Some(*h),
            _ => None,
        }
    }

    /// The failure that ended the task, if one did.
    pub fn failure(&self) -> (r: Option<TaskError>)
        ensures
            r == (match self@.phase {
                PhaseView::Failed(e) => Some(e),
                _ => None,
            }),
    {
        match &self.phase {
            Phase::Failed(e) => Some(*e),
            _ => None,
        }
    }

    /// Whether the task is suspended on an effect that `outcome` can end.
    pub fn accepts(&self, outcome: &Outcome) -> (r: bool)
        ensures
            r == spec_accepts(self@, outcome@),
    {
        match &self.phase {
            Phase::Suspended(effect, _) => match effect {
                Effect::Nop => matches!(outcome, Outcome::Yielded),
                Effect::Sleep(_) => matches!(outcome, Outcome::TimerFired),
                Effect::Fork(_) => matches!(outcome, Outcome::Spawned(_)),
                Effect::Fetch(_) => matches!(outcome, Outcome::Fetched(_)) || matches!(
                    outcome,
                    Outcome::FetchFailed
                ),
                Effect::AwaitJob(_) => matches!(outcome, Outcome::Received(_)),
            },
            _ => false,
        }
    }

    /// Enters the interpreter for a resume call. With nobody inside the task
    /// goes in and the result is the value to resume the context with. With
    /// another task inside nothing changes and the result is the contention
    /// failure. No other task's agreement with the record is disturbed.
    pub fn begin_resume(&mut self, record: &mut Occupancy) -> (r: Result<ResumeData, TaskError>)
        requires
            old(self)@.phase is Ready,
        ensures
            old(record).holder() is None ==> r is Ok && r->Ok_0@ == old(self)@.phase->Ready_0
                && final(self)@ == spec_begin(old(self)@) && final(record).holder() == Some(
                old(self)@.id,
            ),
            old(record).holder() is Some ==> r is Err && r->Err_0 == TaskError::ResourceContention
                && final(self)@ == old(self)@ && final(record).holder() == old(record).holder(),
            consistent(old(self)@, old(record).holder()) ==> consistent(
                final(self)@,
                final(record).holder(),
            ),
            forall|other: DriverView|
                other.id != old(self)@.id && consistent(other, old(record).holder())
                    ==> #[trigger] consistent(other, final(record).holder()),
    {
        if !record.enter(self.id) {
            return Err(TaskError::ResourceContention);
        }
        let mut phase = Phase::Resuming;
        core::mem::swap(&mut self.phase, &mut phase);
        match phase {
            Phase::Ready(data) => Ok(data),
            _ => Ok(ResumeData::Nil),
        }
    }

    /// Ends the task by failure and says who is to be told.
    fn fail(&mut self, error: TaskError) -> (action: Action)
        ensures
            (final(self)@, action@) == spec_fail(old(self)@, error),
    {
        self.phase = Phase::Failed(error);
        match self.output {
            Some(job) => {
                if error.recoverable() {
                    Action::Deliver(job, Delivery::Failure(error))
                } else {
                    Action::Terminate(error)
                }
            },
            None => Action::Terminate(error),
        }
    }

    /// Leaves the interpreter after a resume call and classifies how the call
    /// ended. A value the context suspended with is trusted only if it is an
    /// effect: then the task is suspended on it and the result is the one
    /// action that carries it out. Any other value ends the program as a
    /// protocol violation. A return ends the task and sends the value to its
    /// job, if it has one. Nobody is inside afterwards.
    pub fn end_resume(&mut self, record: &mut Occupancy, resumed: Resumed, now: u64) -> (action: Action)
        requires
            old(self)@.phase is Resuming,
            old(record).holder() == Some(old(self)@.id),
        ensures
            (final(self)@, action@) == spec_end_resume(old(self)@, resumed@, now),
            final(record).holder() is None,
            consistent(final(self)@, final(record).holder()),
            forall|other: DriverView|
                other.id != old(self)@.id && consistent(other, old(record).holder())
                    ==> #[trigger] consistent(other, final(record).holder()),
    {
        let _ = record.leave(self.id);
        match resumed {
            Resumed::Yielded(value) => match classify(value) {
                Ok(effect) => {
                    let action = match &effect {
                        Effect::Nop => Action::Yield,
                        Effect::Sleep(d) => Action::Sleep(*d),
                        Effect::Fork(f) => Action::Spawn(*f),
                        Effect::Fetch(url) => Action::Get(url.clone()),
                        Effect::AwaitJob(j) => Action::Receive(*j),
                    };
                    self.phase = Phase::Suspended(effect, now);
                    action
                },
                Err(_) => self.fail(TaskError::ProtocolViolation),
            },
            Resumed::Returned(value) => {
                self.phase = Phase::Finished(value);
                match self.output {
                    Some(job) => Action::Deliver(job, Delivery::Value(value)),
                    None => Action::Finish,
                }
            },
            Resumed::Raised => self.fail(TaskError::RuntimeScript),
        }
    }

    /// Takes the outcome of the action for the effect the task is suspended
    /// on, and turns it into the value for the next resume: nothing after a
    /// turn given up or a sleep, the job after a fork, the body after a
    /// fetch, and after a wait the child's value, or nothing if the channel
    /// was closed. A failed fetch, and a failure that a child delivered, end
    /// the task. A timer that fired before the full duration has passed does
    /// not wake the task: the result sets it again for the rest.
    pub fn complete(&mut self, outcome: Outcome, now: u64) -> (action: Action)
        requires
            spec_accepts(old(self)@, outcome@),
        ensures
            (final(self)@, action@) == spec_complete(old(self)@, outcome@, now),
    {
        match outcome {
            Outcome::Yielded => {
                self.phase = Phase::Ready(ResumeData::Nil);
                Action::Resume
            },
            Outcome::TimerFired => {
                let (duration, since): (u64, u64) = match &self.phase {
                    Phase::Suspended(Effect::Sleep(d), s) => (*d, *s),
                    _ => (0, now),
                };
                let waited: u64 = if now >= since {
                    now - since
                } else {
                    0
                };
                if now >= since && waited >= duration {
                    self.phase = Phase::Ready(ResumeData::Nil);
                    Action::Resume
                } else {
                    Action::Sleep(duration - waited)
                }
            },
            Outcome::Spawned(job) => {
                self.phase = Phase::Ready(ResumeData::Job(job));
                Action::Resume
            },
            Outcome::Fetched(body) => {
                self.phase = Phase::Ready(ResumeData::Text(body));
                Action::Resume
            },
            Outcome::FetchFailed => self.fail(TaskError::Network),
            Outcome::Received(Some(Delivery::Value(value))) => {
                self.phase = Phase::Ready(ResumeData::Handle(value));
                Action::Resume
            },
            Outcome::Received(Some(Delivery::Failure(error))) => self.fail(error),
            Outcome::Received(None) => {
                self.phase = Phase::Ready(ResumeData::Nil);
                Action::Resume
            },
        }
    }
}

/// One cycle consumes one effect. A task in a resume call whose context
/// suspends with an effect is suspended on exactly that effect and is told
/// the one action for it. Any outcome that fits the effect is accepted, and
/// leaves the task in one of three places: ready for the next resume with a
/// value of the shape that answers the effect; ended by a failed fetch or a
/// failure a child delivered; or, only after a timer that fired early, still
/// suspended on the same effect.
pub proof fn lemma_one_effect_per_cycle(
    d: DriverView,
    effect: EffectView,
    outcome: OutcomeView,
    issued: u64,
    now: u64,
)
    requires
        d.phase is Resuming,
        outcome_fits(effect.kind(), outcome),
    ensures
        ({
            let suspended = spec_end_resume(
                d,
                ResumedView::Yielded(ScriptView::Object(PayloadView::Effect(effect))),
                issued,
            );
            let next = spec_complete(suspended.0, outcome, now);
            &&& suspended.0 == (DriverView { phase: PhaseView::Suspended(effect, issued), ..d })
            &&& suspended.1 == action_for(effect)
            &&& spec_accepts(suspended.0, outcome)
            &&& next.0.id == d.id
            &&& next.0.output == d.output
            &&& match next.0.phase {
                PhaseView::Ready(data) => crate::effect::answers(effect.kind(), data) && next.1
                    == ActionView::Resume,
                PhaseView::Suspended(same, since) => same == effect && since == issued
                    && effect is Sleep && now < issued + effect->Sleep_0,
                PhaseView::Failed(_) => outcome is FetchFailed || outcome
                    == OutcomeView::Received(Some(Delivery::Failure(next.0.phase->Failed_0))),
                _ => false,
            }
        }),
{
}

/// Fork and join. A child with a job that returns `value` is told to deliver
/// exactly that value through the job. The first wait on the job then takes
/// the value out, and the waiting task is made ready with its handle. A
/// second wait finds the channel closed, is reported at once, and makes the
/// waiter ready with nothing.
pub proof fn lemma_fork_join(
    child: DriverView,
    parent: DriverView,
    job: JobId,
    value: Handle,
    issued: u64,
    now: u64,
)
    requires
        child.phase is Resuming,
        child.output == Some(job),
        parent.phase == PhaseView::Suspended(EffectView::AwaitJob(job), issued),
    ensures
        ({
            let ended = spec_end_resume(child, ResumedView::Returned(value), now);
            let sent = spec_deliver(Slot::Open, Delivery::Value(value));
            let first = spec_receive(sent);
            let second = spec_receive(first.1);
            &&& ended.0.phase == PhaseView::Finished(value)
            &&& ended.1 == ActionView::Deliver(job, Delivery::Value(value))
            &&& first.0 == Received::Delivered(Delivery::Value(value))
            &&& spec_outcome_of(first.0) is Some
            &&& spec_accepts(parent, spec_outcome_of(first.0)->0)
            &&& spec_complete(parent, spec_outcome_of(first.0)->0, now) == spec_ready(
                parent,
                ResumeView::Handle(value),
            )
            &&& second.0 == Received::Closed
            &&& spec_outcome_of(second.0) is Some
            &&& spec_accepts(parent, spec_outcome_of(second.0)->0)
            &&& spec_complete(parent, spec_outcome_of(second.0)->0, now) == spec_ready(
                parent,
                ResumeView::Nil,
            )
        }),
{
}

/// Mutual exclusion. Of two distinct tasks that agree with the same record, at
/// most one is in a resume call. `begin_resume` and `end_resume` keep every
/// task's agreement with the record, so this holds of any number of tasks at
/// all times.
pub proof fn lemma_mutual_exclusion(a: DriverView, b: DriverView, holder: Option<u64>)
    requires
        a.id != b.id,
        consistent(a, holder),
        consistent(b, holder),
    ensures
        !(a.phase is Resuming && b.phase is Resuming),
{
}

/// Whether every task in `tasks` agrees with the record `holder`.
pub open spec fn all_consistent(tasks: Seq<DriverView>, holder: Option<u64>) -> bool {
    forall|i: int| 0 <= i < tasks.len() ==> consistent(#[trigger] tasks[i], holder)
}

/// Whether no two tasks in `tasks` share a name.
pub open spec fn distinct_names(tasks: Seq<DriverView>) -> bool {
    forall|i: int, j: int|
        0 <= i < tasks.len() && 0 <= j < tasks.len() && i != j ==> (#[trigger] tasks[i]).id != (
        #[trigger] tasks[j]).id
}

/// Whether at most one task in `tasks` is in a resume call.
pub open spec fn at_most_one_inside(tasks: Seq<DriverView>) -> bool {
    forall|i: int, j: int|
        0 <= i < tasks.len() && 0 <= j < tasks.len() && (#[trigger] tasks[i]).phase is Resuming
            && (#[trigger] tasks[j]).phase is Resuming ==> i == j
}

/// Among any number of tasks with distinct names that agree with one
/// record, at most one is in a resume call.
pub proof fn lemma_exclusion_among_all(tasks: Seq<DriverView>, holder: Option<u64>)
    requires
        distinct_names(tasks),
        all_consistent(tasks, holder),
    ensures
        at_most_one_inside(tasks),
{
    assert forall|i: int, j: int|
        0 <= i < tasks.len() && 0 <= j < tasks.len() && (#[trigger] tasks[i]).phase is Resuming
            && (#[trigger] tasks[j]).phase is Resuming implies i == j by {
        assert(consistent(tasks[i], holder));
        assert(consistent(tasks[j], holder));
    }
}

/// Entering keeps the agreement of all tasks. When task `i` enters a free
/// interpreter, every task still agrees with the record, which now names
/// task `i`.
pub proof fn lemma_entering_keeps_agreement(tasks: Seq<DriverView>, i: int)
    requires
        0 <= i < tasks.len(),
        distinct_names(tasks),
        all_consistent(tasks, None),
        tasks[i].phase is Ready,
    ensures
        distinct_names(tasks.update(i, spec_begin(tasks[i]))),
        all_consistent(tasks.update(i, spec_begin(tasks[i])), Some(tasks[i].id)),
{
    let after = tasks.update(i, spec_begin(tasks[i]));
    assert forall|k: int| 0 <= k < after.len() implies consistent(
        #[trigger] after[k],
        Some(tasks[i].id),
    ) by {
        if k != i {
            assert(consistent(tasks[k], None));
        }
    }
    assert forall|j: int, k: int|
        0 <= j < after.len() && 0 <= k < after.len() && j != k implies (#[trigger] after[j]).id
        != (#[trigger] after[k]).id by {
        assert(tasks[j].id != tasks[k].id);
    }
}

/// Leaving keeps the agreement of all tasks. When task `i` ends its resume
/// call, however the call ended, every task agrees with the free record, so
/// no task is inside.
pub proof fn lemma_leaving_keeps_agreement(
    tasks: Seq<DriverView>,
    i: int,
    resumed: ResumedView,
    now: u64,
)
    requires
        0 <= i < tasks.len(),
        distinct_names(tasks),
        all_consistent(tasks, Some(tasks[i].id)),
        tasks[i].phase is Resuming,
    ensures
        distinct_names(tasks.update(i, spec_end_resume(tasks[i], resumed, now).0)),
        all_consistent(tasks.update(i, spec_end_resume(tasks[i], resumed, now).0), None),
{
    let after = tasks.update(i, spec_end_resume(tasks[i], resumed, now).0);
    assert forall|k: int| 0 <= k < after.len() implies consistent(#[trigger] after[k], None) by {
        if k != i {
            assert(consistent(tasks[k], Some(tasks[i].id)));
            assert(tasks[k].id != tasks[i].id);
        }
    }
    assert forall|j: int, k: int|
        0 <= j < after.len() && 0 <= k < after.len() && j != k implies (#[trigger] after[j]).id
        != (#[trigger] after[k]).id by {
        assert(tasks[j].id != tasks[k].id);
    }
}

/// Whether carrying out `action` makes the task wait.
pub open spec fn suspends(action: ActionView) -> bool {
    action is Yield || action is Sleep || action is Get || action is Receive
}

/// Nothing is awaited inside the interpreter. No step leaves a task in a
/// resume call, and a task that is told to wait is suspended on an effect.
pub proof fn lemma_waits_happen_outside(
    d: DriverView,
    resumed: ResumedView,
    outcome: OutcomeView,
    now: u64,
)
    ensures
        !(spec_end_resume(d, resumed, now).0.phase is Resuming),
        suspends(spec_end_resume(d, resumed, now).1) ==> spec_end_resume(
            d,
            resumed,
            now,
        ).0.phase is Suspended,
        spec_accepts(d, outcome) ==> !(spec_complete(d, outcome, now).0.phase is Resuming),
        spec_accepts(d, outcome) && suspends(spec_complete(d, outcome, now).1) ==> spec_complete(
            d,
            outcome,
            now,
        ).0.phase is Suspended,
{
}

/// A task ends once. A resume call ends the task exactly when the context
/// did not suspend with an effect, and an outcome ends it exactly when it
/// fails the task. A child that ends is told to deliver through its own job,
/// unless the failure ends the program. A task that has ended takes no
/// further step: it is not ready, not in a resume call, and accepts no
/// outcome, so nothing is ever delivered twice.
pub proof fn lemma_task_ends_once(
    d: DriverView,
    resumed: ResumedView,
    outcome: OutcomeView,
    now: u64,
)
    ensures
        over(spec_end_resume(d, resumed, now).0) <==> !(resumed is Yielded && spec_classify(
            resumed->Yielded_0,
        ) is Some),
        over(spec_end_resume(d, resumed, now).0) && d.output is Some ==> ({
            let action = spec_end_resume(d, resumed, now).1;
            (action is Deliver && action->Deliver_0 == d.output->0) || action is Terminate
        }),
        spec_accepts(d, outcome) && over(spec_complete(d, outcome, now).0) && d.output is Some
            ==> ({
            let action = spec_complete(d, outcome, now).1;
            (action is Deliver && action->Deliver_0 == d.output->0) || action is Terminate
        }),
        over(d) ==> !(d.phase is Ready) && !(d.phase is Resuming) && !spec_accepts(d, outcome),
{
}

/// A sleep lasts its full duration. A task suspended on a sleep of `d` time
/// units issued at `since` becomes ready only by a report made at a time
/// `now` with `since + d <= now`. An earlier report leaves it as it was and
/// sets the timer for what is left.
pub proof fn lemma_sleep_lower_bound(d: DriverView, outcome: OutcomeView, now: u64)
    requires
        d.phase is Suspended,
        d.phase->Suspended_0 is Sleep,
        spec_accepts(d, outcome),
    ensures
        ({
            let duration = d.phase->Suspended_0->Sleep_0;
            let since = d.phase->Suspended_1;
            let next = spec_complete(d, outcome, now);
            &&& next.0.phase is Ready <==> since + duration <= now
            &&& since + duration > now ==> next.0 == d && next.1 is Sleep && next.1->Sleep_0
                == duration - elapsed(since, now)
        }),
{
}

/// Protocol safety. Only an opaque object that carries an effect is read as
/// one. A context that suspends with any other value ends its task with a
/// protocol violation, and the program is told to end, whether or not the
/// task has a job.
pub proof fn lemma_protocol_violation(d: DriverView, value: ScriptView, now: u64)
    ensures
        spec_classify(value) is Some <==> (value is Object && value->Object_0 is Effect),
        spec_classify(value) is None ==> spec_end_resume(d, ResumedView::Yielded(value), now)
            == (
            DriverView { phase: PhaseView::Failed(TaskError::ProtocolViolation), ..d },
            ActionView::Terminate(TaskError::ProtocolViolation),
        ),
{
}

} // verus!
