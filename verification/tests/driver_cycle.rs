use effect_sched::driver::{Action, Driver, Outcome, Resumed};
use effect_sched::effect::{Effect, Handle, JobId, ResumeData};
use effect_sched::error::TaskError;
use effect_sched::occupancy::Occupancy;
use effect_sched::job::{Delivery, Received};
use effect_sched::marshal::{wrap_effect, Payload, ScriptValue};

fn suspended_on(effect: Effect, output: Option<JobId>, now: u64) -> (Driver, Occupancy, Action) {
    let mut record = Occupancy::new();
    let mut d = Driver::new(5, output);
    assert_eq!(d.begin_resume(&mut record), Ok(ResumeData::Nil));
    let action = d.end_resume(&mut record, Resumed::Yielded(wrap_effect(effect)), now);
    (d, record, action)
}

fn next_data(d: &mut Driver, record: &mut Occupancy) -> ResumeData {
    assert!(d.is_ready());
    d.begin_resume(record).unwrap()
}

#[test]
fn a_new_driver_is_ready_with_nothing() {
    let d = Driver::new(7, Some(JobId { id: 2 }));
    assert_eq!(d.id(), 7);
    assert_eq!(d.output(), Some(JobId { id: 2 }));
    assert!(d.is_ready());
    assert!(!d.is_resuming());
    assert!(!d.is_over());
    assert_eq!(d.result(), None);
    assert_eq!(d.failure(), None);
}

#[test]
fn begin_resume_takes_the_gate_and_hands_out_the_data() {
    let mut record = Occupancy::new();
    let mut d = Driver::new(7, None);
    assert_eq!(d.begin_resume(&mut record), Ok(ResumeData::Nil));
    assert!(d.is_resuming());
    assert_eq!(record.occupant(), Some(7));
}

#[test]
fn begin_resume_with_the_gate_taken_changes_nothing() {
    let mut record = Occupancy::new();
    assert!(record.enter(1));
    let mut d = Driver::new(7, None);
    assert_eq!(d.begin_resume(&mut record), Err(TaskError::ResourceContention));
    assert!(d.is_ready());
    assert_eq!(record.occupant(), Some(1));
    assert!(record.leave(1));
    assert_eq!(d.begin_resume(&mut record), Ok(ResumeData::Nil));
}

#[test]
fn nop_cycle() {
    let (mut d, mut record, action) = suspended_on(Effect::nop(), None, 0);
    assert_eq!(action, Action::Yield);
    assert!(record.is_free());
    assert!(d.accepts(&Outcome::Yielded));
    assert!(!d.accepts(&Outcome::TimerFired));
    assert_eq!(d.complete(Outcome::Yielded, 0), Action::Resume);
    assert_eq!(next_data(&mut d, &mut record), ResumeData::Nil);
}

#[test]
fn sleep_cycle_waits_the_full_duration() {
    let (mut d, mut record, action) = suspended_on(Effect::sleep(3), None, 10);
    assert_eq!(action, Action::Sleep(3));
    assert!(d.accepts(&Outcome::TimerFired));
    assert_eq!(d.complete(Outcome::TimerFired, 10), Action::Sleep(3));
    assert_eq!(d.complete(Outcome::TimerFired, 12), Action::Sleep(1));
    assert!(!d.is_ready());
    assert_eq!(d.complete(Outcome::TimerFired, 13), Action::Resume);
    assert_eq!(next_data(&mut d, &mut record), ResumeData::Nil);
}

#[test]
fn sleep_is_not_cut_short_by_a_clock_that_ran_backwards() {
    let (mut d, _gate, _) = suspended_on(Effect::sleep(2), None, 10);
    assert_eq!(d.complete(Outcome::TimerFired, 4), Action::Sleep(2));
    assert!(!d.is_ready());
    assert_eq!(d.complete(Outcome::TimerFired, 200), Action::Resume);
    assert!(d.is_ready());
}

#[test]
fn sleep_at_the_end_of_the_clock_does_not_overflow() {
    let (mut d, _gate, action) = suspended_on(Effect::sleep(u64::MAX), None, u64::MAX);
    assert_eq!(action, Action::Sleep(u64::MAX));
    assert_eq!(d.complete(Outcome::TimerFired, u64::MAX), Action::Sleep(u64::MAX));
    let (mut z, _gate, _) = suspended_on(Effect::sleep(0), None, u64::MAX);
    assert_eq!(z.complete(Outcome::TimerFired, u64::MAX), Action::Resume);
}

#[test]
fn fork_cycle_resumes_with_the_job() {
    let (mut d, mut record, action) = suspended_on(Effect::fork(Handle { key: 77 }), None, 0);
    assert_eq!(action, Action::Spawn(Handle { key: 77 }));
    assert!(d.accepts(&Outcome::Spawned(JobId { id: 1 })));
    assert_eq!(d.complete(Outcome::Spawned(JobId { id: 1 }), 0), Action::Resume);
    assert_eq!(next_data(&mut d, &mut record), ResumeData::Job(JobId { id: 1 }));
}

#[test]
fn fetch_cycle_resumes_with_the_body() {
    let url = String::from("http://a.test/");
    let (mut d, mut record, action) = suspended_on(Effect::fetch(url.clone()), None, 0);
    assert_eq!(action, Action::Get(url));
    assert!(d.accepts(&Outcome::Fetched(String::new())));
    assert!(d.accepts(&Outcome::FetchFailed));
    assert_eq!(d.complete(Outcome::Fetched(String::from("<html>")), 0), Action::Resume);
    assert_eq!(next_data(&mut d, &mut record), ResumeData::Text(String::from("<html>")));
}

#[test]
fn await_cycle_resumes_with_the_value_or_with_nothing() {
    let job = JobId { id: 6 };
    let (mut d, mut record, action) = suspended_on(Effect::AwaitJob(job), None, 0);
    assert_eq!(action, Action::Receive(job));
    let got = Outcome::Received(Some(Delivery::Value(Handle { key: 8 })));
    assert!(d.accepts(&got));
    assert_eq!(d.complete(got, 0), Action::Resume);
    assert_eq!(next_data(&mut d, &mut record), ResumeData::Handle(Handle { key: 8 }));

    let again = d.end_resume(&mut record, Resumed::Yielded(wrap_effect(Effect::AwaitJob(job))), 1);
    assert_eq!(again, Action::Receive(job));
    assert_eq!(d.complete(Outcome::Received(None), 1), Action::Resume);
    assert_eq!(next_data(&mut d, &mut record), ResumeData::Nil);
}

#[test]
fn an_outcome_of_another_kind_is_not_accepted() {
    let (d, _gate, _) = suspended_on(Effect::sleep(1), None, 0);
    assert!(!d.accepts(&Outcome::Yielded));
    assert!(!d.accepts(&Outcome::Spawned(JobId { id: 1 })));
    assert!(!d.accepts(&Outcome::Fetched(String::new())));
    assert!(!d.accepts(&Outcome::FetchFailed));
    assert!(!d.accepts(&Outcome::Received(None)));
    let fresh = Driver::new(1, None);
    assert!(!fresh.accepts(&Outcome::Yielded));
}

#[test]
fn a_look_at_the_channel_becomes_a_report() {
    assert_eq!(Outcome::from_received(Received::Pending), None);
    assert_eq!(Outcome::from_received(Received::Closed), Some(Outcome::Received(None)));
    assert_eq!(
        Outcome::from_received(Received::Delivered(Delivery::Value(Handle { key: 1 }))),
        Some(Outcome::Received(Some(Delivery::Value(Handle { key: 1 }))))
    );
}

#[test]
fn a_root_task_that_returns_just_finishes() {
    let mut record = Occupancy::new();
    let mut d = Driver::new(0, None);
    d.begin_resume(&mut record).unwrap();
    assert_eq!(d.end_resume(&mut record, Resumed::Returned(Handle { key: 3 }), 0), Action::Finish);
    assert!(d.is_over());
    assert_eq!(d.result(), Some(Handle { key: 3 }));
    assert_eq!(d.failure(), None);
    assert!(record.is_free());
}

#[test]
fn a_child_that_returns_delivers_its_value() {
    let job = JobId { id: 9 };
    let mut record = Occupancy::new();
    let mut d = Driver::new(1, Some(job));
    d.begin_resume(&mut record).unwrap();
    assert_eq!(
        d.end_resume(&mut record, Resumed::Returned(Handle { key: 3 }), 0),
        Action::Deliver(job, Delivery::Value(Handle { key: 3 }))
    );
    assert_eq!(d.result(), Some(Handle { key: 3 }));
}

#[test]
fn a_value_that_is_no_effect_ends_the_program() {
    let bad = vec![
        ScriptValue::Nil,
        ScriptValue::Text(String::from("nop")),
        ScriptValue::Other,
        ScriptValue::Object(Payload::Foreign),
        ScriptValue::Object(Payload::Job(JobId { id: 1 })),
    ];
    for value in bad {
        for output in [None, Some(JobId { id: 2 })] {
            let mut record = Occupancy::new();
            let mut d = Driver::new(1, output);
            d.begin_resume(&mut record).unwrap();
            assert_eq!(
                d.end_resume(&mut record, Resumed::Yielded(value_copy(&value)), 0),
                Action::Terminate(TaskError::ProtocolViolation)
            );
            assert_eq!(d.failure(), Some(TaskError::ProtocolViolation));
            assert!(d.is_over());
            assert!(record.is_free());
        }
    }
}

fn value_copy(v: &ScriptValue) -> ScriptValue {
    match v {
        ScriptValue::Nil => ScriptValue::Nil,
        ScriptValue::Text(s) => ScriptValue::Text(s.clone()),
        ScriptValue::Stored(h) => ScriptValue::Stored(*h),
        ScriptValue::Object(Payload::Job(j)) => ScriptValue::Object(Payload::Job(*j)),
        ScriptValue::Object(Payload::Effect(e)) => ScriptValue::Object(Payload::Effect(e.duplicate())),
        ScriptValue::Object(Payload::Foreign) => ScriptValue::Object(Payload::Foreign),
        ScriptValue::Other => ScriptValue::Other,
    }
}

#[test]
fn a_script_error_goes_to_the_job_of_a_child() {
    let job = JobId { id: 9 };
    let mut record = Occupancy::new();
    let mut d = Driver::new(1, Some(job));
    d.begin_resume(&mut record).unwrap();
    assert_eq!(
        d.end_resume(&mut record, Resumed::Raised, 0),
        Action::Deliver(job, Delivery::Failure(TaskError::RuntimeScript))
    );
    assert_eq!(d.failure(), Some(TaskError::RuntimeScript));
}

#[test]
fn a_script_error_in_the_root_task_ends_the_program() {
    let mut record = Occupancy::new();
    let mut d = Driver::new(0, None);
    d.begin_resume(&mut record).unwrap();
    assert_eq!(
        d.end_resume(&mut record, Resumed::Raised, 0),
        Action::Terminate(TaskError::RuntimeScript)
    );
}

#[test]
fn a_failed_fetch_ends_the_task() {
    let job = JobId { id: 9 };
    let (mut child, _g, _) = suspended_on(Effect::fetch(String::from("u")), Some(job), 0);
    assert_eq!(
        child.complete(Outcome::FetchFailed, 0),
        Action::Deliver(job, Delivery::Failure(TaskError::Network))
    );
    assert_eq!(child.failure(), Some(TaskError::Network));

    let (mut root, _g, _) = suspended_on(Effect::fetch(String::from("u")), None, 0);
    assert_eq!(root.complete(Outcome::FetchFailed, 0), Action::Terminate(TaskError::Network));
}

#[test]
fn a_delivered_failure_ends_the_waiter_too() {
    let awaited = JobId { id: 3 };
    let own = JobId { id: 4 };
    let failed = Outcome::Received(Some(Delivery::Failure(TaskError::Network)));
    let (mut child, _g, _) = suspended_on(Effect::AwaitJob(awaited), Some(own), 0);
    assert_eq!(
        child.complete(failed, 0),
        Action::Deliver(own, Delivery::Failure(TaskError::Network))
    );
    let failed = Outcome::Received(Some(Delivery::Failure(TaskError::RuntimeScript)));
    let (mut root, _g, _) = suspended_on(Effect::AwaitJob(awaited), None, 0);
    assert_eq!(root.complete(failed, 0), Action::Terminate(TaskError::RuntimeScript));
    assert_eq!(root.failure(), Some(TaskError::RuntimeScript));
}
