use effect_sched::driver::{Action, Driver, Outcome, Resumed};
use effect_sched::effect::{Effect, Handle, JobId, ResumeData};
use effect_sched::occupancy::Occupancy;
use effect_sched::job::{Delivery, Job, JobChannel, Received};
use effect_sched::marshal::{to_script, wrap_effect, Payload, ScriptValue};

fn resume(d: &mut Driver, record: &mut Occupancy, resumed: Resumed, now: u64) -> (ResumeData, Action) {
    let data = d.begin_resume(record).unwrap();
    assert_eq!(record.occupant(), Some(d.id()));
    let action = d.end_resume(record, resumed, now);
    assert!(record.is_free());
    (data, action)
}

fn yields(effect: Effect) -> Resumed {
    Resumed::Yielded(wrap_effect(effect))
}

fn is_timer_or_network(action: &Action) -> bool {
    matches!(action, Action::Sleep(_)) || matches!(action, Action::Get(_))
}

#[test]
fn entry_function_that_returns_at_once() {
    let mut record = Occupancy::new();
    let mut root = Driver::new(0, None);
    let (data, action) = resume(&mut root, &mut record, Resumed::Returned(Handle { key: 2 }), 0);
    assert_eq!(data, ResumeData::Nil);
    assert_eq!(action, Action::Finish);
    assert!(!is_timer_or_network(&action));
    assert!(root.is_over());
    assert_eq!(root.result(), Some(Handle { key: 2 }));
    assert_eq!(root.failure(), None);
}

#[test]
fn fork_sleep_then_wait() {
    let mut record = Occupancy::new();
    let mut clock: u64 = 0;
    let callable = Handle { key: 100 };
    let x = Handle { key: 101 };
    let job_id = JobId { id: 1 };

    let mut root = Driver::new(0, None);
    let (_, action) = resume(&mut root, &mut record, yields(Effect::fork(callable)), clock);
    assert_eq!(action, Action::Spawn(callable));

    let mut channel = JobChannel::open(job_id);
    let mut child = Driver::new(1, Some(job_id));
    assert_eq!(root.complete(Outcome::Spawned(job_id), clock), Action::Resume);

    let data = root.begin_resume(&mut record).unwrap();
    let job = match to_script(data) {
        ScriptValue::Object(Payload::Job(id)) => Job { id },
        other => panic!("no job: {:?}", other),
    };
    assert_eq!(job, channel.job());
    let action = root.end_resume(&mut record, yields(job.wait()), clock);
    assert_eq!(action, Action::Receive(job_id));
    assert_eq!(Outcome::from_received(channel.receive()), None);

    let (_, action) = resume(&mut child, &mut record, yields(Effect::sleep(1)), clock);
    assert_eq!(action, Action::Sleep(1));
    assert_eq!(child.complete(Outcome::TimerFired, clock), Action::Sleep(1));
    assert_eq!(channel.receive(), Received::Pending);
    assert!(!root.is_ready());

    clock += 1;
    assert_eq!(child.complete(Outcome::TimerFired, clock), Action::Resume);
    let (_, action) = resume(&mut child, &mut record, Resumed::Returned(x), clock);
    assert_eq!(action, Action::Deliver(job_id, Delivery::Value(x)));
    assert!(channel.deliver(Delivery::Value(x)));

    let report = Outcome::from_received(channel.receive()).unwrap();
    assert!(root.accepts(&report));
    assert_eq!(root.complete(report, clock), Action::Resume);
    assert!(clock >= 1);
    assert_eq!(root.begin_resume(&mut record), Ok(ResumeData::Handle(x)));
}

#[test]
fn two_forks_fetch_concurrently() {
    let mut record = Occupancy::new();
    let mut root = Driver::new(0, None);
    let jobs = [JobId { id: 1 }, JobId { id: 2 }];
    let urls = [String::from("http://one.test/"), String::from("http://two.test/")];
    let bodies = [Handle { key: 11 }, Handle { key: 22 }];
    let mut channels = vec![JobChannel::open(jobs[0]), JobChannel::open(jobs[1])];
    let mut children = vec![Driver::new(1, Some(jobs[0])), Driver::new(2, Some(jobs[1]))];

    for i in 0..2 {
        let (_, action) =
            resume(&mut root, &mut record, yields(Effect::fork(Handle { key: 50 + i as u64 })), 0);
        assert_eq!(action, Action::Spawn(Handle { key: 50 + i as u64 }));
        assert_eq!(root.complete(Outcome::Spawned(jobs[i]), 0), Action::Resume);
    }

    // Both requests are out before either has an answer.
    for i in 0..2 {
        let (_, action) =
            resume(&mut children[i], &mut record, yields(Effect::fetch(urls[i].clone())), 0);
        assert_eq!(action, Action::Get(urls[i].clone()));
    }
    assert!(children[0].accepts(&Outcome::Fetched(String::new())));
    assert!(children[1].accepts(&Outcome::Fetched(String::new())));

    let (data, action) = resume(&mut root, &mut record, yields(Job { id: jobs[0] }.wait()), 0);
    assert_eq!(data, ResumeData::Job(jobs[1]));
    assert_eq!(action, Action::Receive(jobs[0]));
    assert_eq!(channels[0].receive(), Received::Pending);

    // The second answer arrives first.
    for i in [1usize, 0usize] {
        let body = format!("body of {}", urls[i]);
        assert_eq!(children[i].complete(Outcome::Fetched(body.clone()), 1), Action::Resume);
        let (data, action) =
            resume(&mut children[i], &mut record, Resumed::Returned(bodies[i]), 1);
        assert_eq!(data, ResumeData::Text(body));
        assert_eq!(action, Action::Deliver(jobs[i], Delivery::Value(bodies[i])));
        assert!(channels[i].deliver(Delivery::Value(bodies[i])));
    }

    let first = Outcome::from_received(channels[0].receive()).unwrap();
    assert_eq!(root.complete(first, 1), Action::Resume);
    let (data, action) = resume(&mut root, &mut record, yields(Job { id: jobs[1] }.wait()), 1);
    assert_eq!(data, ResumeData::Handle(bodies[0]));
    assert_eq!(action, Action::Receive(jobs[1]));

    let second = Outcome::from_received(channels[1].receive()).unwrap();
    assert_eq!(root.complete(second, 1), Action::Resume);
    let (data, action) = resume(&mut root, &mut record, Resumed::Returned(Handle { key: 0 }), 1);
    assert_eq!(data, ResumeData::Handle(bodies[1]));
    assert_eq!(action, Action::Finish);
}

#[test]
fn waiting_twice_on_one_job_gives_the_value_then_nothing() {
    let mut record = Occupancy::new();
    let job_id = JobId { id: 1 };
    let value = Handle { key: 9 };
    let mut channel = JobChannel::open(job_id);
    let mut child = Driver::new(1, Some(job_id));
    let mut root = Driver::new(0, None);

    let (_, action) = resume(&mut child, &mut record, Resumed::Returned(value), 0);
    assert_eq!(action, Action::Deliver(job_id, Delivery::Value(value)));
    assert!(channel.deliver(Delivery::Value(value)));

    let mut seen = Vec::new();
    for _ in 0..2 {
        let (_, action) = resume(&mut root, &mut record, yields(channel.job().wait()), 0);
        assert_eq!(action, Action::Receive(job_id));
        let report = Outcome::from_received(channel.receive()).unwrap();
        assert_eq!(root.complete(report, 0), Action::Resume);
        seen.push(root.begin_resume(&mut record).unwrap());
        root.end_resume(&mut record, yields(Effect::nop()), 0);
        root.complete(Outcome::Yielded, 0);
    }
    assert_eq!(seen, vec![ResumeData::Handle(value), ResumeData::Nil]);
}

#[test]
fn no_two_tasks_are_inside_the_interpreter_at_once() {
    let mut record = Occupancy::new();
    let mut tasks: Vec<Driver> = (0..8).map(|i| Driver::new(i, None)).collect();
    for round in 0..3u64 {
        for i in 0..tasks.len() {
            assert!(tasks[i].begin_resume(&mut record).is_ok());
            let inside = tasks.iter().filter(|t| t.is_resuming()).count();
            assert_eq!(inside, 1);
            assert_eq!(record.occupant(), Some(tasks[i].id()));
            for j in 0..tasks.len() {
                if j != i && tasks[j].is_ready() {
                    assert!(tasks[j].begin_resume(&mut record).is_err());
                    assert!(!tasks[j].is_resuming());
                }
            }
            tasks[i].end_resume(&mut record, yields(Effect::nop()), round);
            assert_eq!(tasks.iter().filter(|t| t.is_resuming()).count(), 0);
            assert!(record.is_free());
        }
        for t in tasks.iter_mut() {
            assert_eq!(t.complete(Outcome::Yielded, round), Action::Resume);
        }
    }
}
