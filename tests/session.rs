use ruperf::catalog::StatEvent;
use ruperf::error::SysErr;
use ruperf::ioctl::IoctlCommand;
use ruperf::stat::{Action, Counter, Input, Phase, Session, SessionError, StatOptions};

fn count(v: u64) -> [u8; 8] {
    v.to_le_bytes()
}

/// Drives a session through launch, readiness and the opening of `n`
/// counters on descriptors 10, 11, ...; returns the first start action.
fn arm(session: &mut Session, pid: i32, n: usize) -> Action {
    assert!(matches!(session.step(Input::Launched(pid)), Action::AwaitReady));
    let mut action = session.step(Input::Ready(1));
    for i in 0..n {
        match action {
            Action::Open(req) => assert_eq!(req.pid, pid),
            other => panic!("expected an open, got {:?}", other),
        }
        action = session.step(Input::Opened(10 + i as i64));
    }
    action
}

#[test]
fn cat_dev_null_cycles_and_instructions() {
    let (mut session, first) = Session::new(vec![StatEvent::Cycles, StatEvent::Instructions]);
    assert!(matches!(first, Action::Launch));
    let mut action = arm(&mut session, 900, 2);
    let starts = [100u64, 200];
    for (i, v) in starts.iter().enumerate() {
        match action {
            Action::Control(req) => {
                assert_eq!(req.fd, 10 + i as i32);
                assert_eq!(req.command, IoctlCommand::Enable.word());
            },
            other => panic!("expected an enable, got {:?}", other),
        }
        assert!(matches!(session.step(Input::Controlled(0)), Action::Read(_)));
        action = session.step(Input::ReadCount(8, count(*v)));
    }
    assert!(matches!(action, Action::Release));
    assert_eq!(session.phase(), Phase::Releasing);
    assert!(matches!(session.step(Input::Released(1, 1_000)), Action::Wait(900)));
    action = session.step(Input::Exited(900, 3_500));
    let stops = [90_100u64, 150_200];
    for (i, v) in stops.iter().enumerate() {
        match action {
            Action::Control(req) => {
                assert_eq!(req.fd, 10 + i as i32);
                assert_eq!(req.command, IoctlCommand::Disable.word());
            },
            other => panic!("expected a disable, got {:?}", other),
        }
        assert!(matches!(session.step(Input::Controlled(0)), Action::Read(_)));
        action = session.step(Input::ReadCount(8, count(*v)));
    }
    match action {
        Action::Report(r) => {
            assert_eq!(r.elapsed_ns, 2_500);
            assert_eq!(r.counters.len(), 2);
            assert_eq!(r.counters[0], Counter { event: StatEvent::Cycles, start: 100, stop: 90_100 });
            assert_eq!(r.counters[0].delta(), 90_000);
            assert_eq!(r.counters[1].delta(), 150_000);
            assert!(r.counters.iter().all(|c| c.delta() > 0));
        },
        other => panic!("expected a report, got {:?}", other),
    }
    assert_eq!(session.phase(), Phase::Reported);
}

#[test]
fn missing_executable_still_reports() {
    // The child fails to replace its image and exits at once; the window
    // closes all the same.
    let (mut session, _) = Session::new(vec![StatEvent::ContextSwitches]);
    let action = arm(&mut session, 77, 1);
    assert!(matches!(action, Action::Control(_)));
    session.step(Input::Controlled(0));
    assert!(matches!(session.step(Input::ReadCount(8, count(0))), Action::Release));
    assert!(matches!(session.step(Input::Released(1, 10)), Action::Wait(77)));
    assert!(matches!(session.step(Input::Exited(77, 20)), Action::Control(_)));
    session.step(Input::Controlled(0));
    match session.step(Input::ReadCount(8, count(1))) {
        Action::Report(r) => {
            assert_eq!(r.counters.len(), 1);
            assert!(r.counters[0].delta() >= 0);
        },
        other => panic!("expected a report, got {:?}", other),
    }
}

#[test]
fn empty_request_measures_the_default_set() {
    let (mut session, _) = Session::new(Vec::new());
    let action = arm(&mut session, 5, 8);
    assert!(matches!(action, Action::Control(_)));
    let mut options = StatOptions { event: Vec::new(), command: vec!["true".to_string()] };
    let requests = Counter::counters(&mut options, 5);
    assert_eq!(requests.len(), 8);
    assert_eq!(options.event[2], StatEvent::TaskClock);
    assert_eq!(options.command, vec!["true".to_string()]);
}

#[test]
fn open_failure_reaps_the_child_first() {
    let (mut session, _) = Session::new(vec![StatEvent::Cycles, StatEvent::ContextSwitches]);
    arm(&mut session, 31, 1);
    assert!(matches!(session.step(Input::Opened(-1)), Action::Wait(31)));
    assert_eq!(session.phase(), Phase::Reaping);
    match session.step(Input::Exited(31, 0)) {
        Action::Fail(e) => {
            assert_eq!(e, SessionError::Counter(StatEvent::ContextSwitches, SysErr::OpenFail))
        },
        other => panic!("expected a failure, got {:?}", other),
    }
    assert_eq!(session.phase(), Phase::Failed);
}

#[test]
fn short_handshake_reaps_the_child_first() {
    let (mut session, _) = Session::new(vec![StatEvent::Cycles]);
    session.step(Input::Launched(12));
    assert!(matches!(session.step(Input::Ready(0)), Action::Wait(12)));
    assert!(matches!(session.step(Input::Exited(12, 0)), Action::Fail(SessionError::Handshake)));
}

#[test]
fn failed_start_reaps_the_child_first() {
    let (mut session, _) = Session::new(vec![StatEvent::Cycles]);
    arm(&mut session, 12, 1);
    assert!(matches!(session.step(Input::Controlled(-1)), Action::Wait(12)));
    assert!(matches!(
        session.step(Input::Exited(12, 0)),
        Action::Fail(SessionError::Counter(StatEvent::Cycles, SysErr::IoFail))
    ));
}

#[test]
fn failed_launch_fails_at_once() {
    let (mut session, _) = Session::new(vec![StatEvent::Cycles]);
    assert!(matches!(session.step(Input::Launched(-1)), Action::Fail(SessionError::Launch)));
}

#[test]
fn out_of_order_input_is_a_protocol_error() {
    let (mut session, _) = Session::new(vec![StatEvent::Cycles]);
    assert!(matches!(session.step(Input::Ready(1)), Action::Fail(SessionError::Protocol)));
    let (mut session, _) = Session::new(vec![StatEvent::Cycles]);
    session.step(Input::Launched(3));
    assert!(matches!(session.step(Input::Released(1, 0)), Action::Wait(3)));
}

#[test]
fn task_clock_figures() {
    let c = Counter { event: StatEvent::TaskClock, start: 1_000, stop: 2_501_000 };
    assert_eq!(c.delta(), 2_500_000);
    assert_eq!(c.hundredths_of_ms(), 250);
    assert_eq!(c.utilization_thousandths(5_000_000), Some(500));
    assert_eq!(c.utilization_thousandths(0), None);
    let back = Counter { event: StatEvent::TaskClock, start: 10, stop: 5 };
    assert_eq!(back.utilization_thousandths(100), None);
    assert_eq!(back.hundredths_of_ms(), 0);
}

#[test]
fn failed_wait_is_reported() {
    let (mut session, _) = Session::new(vec![StatEvent::Cycles]);
    arm(&mut session, 40, 1);
    session.step(Input::Controlled(0));
    session.step(Input::ReadCount(8, count(3)));
    assert!(matches!(session.step(Input::Released(1, 0)), Action::Wait(40)));
    assert!(matches!(session.step(Input::Exited(-1, 9)), Action::Fail(SessionError::Wait)));
}

#[test]
fn short_release_reaps_the_child_first() {
    let (mut session, _) = Session::new(vec![StatEvent::Cycles]);
    arm(&mut session, 41, 1);
    session.step(Input::Controlled(0));
    assert!(matches!(session.step(Input::ReadCount(8, count(3))), Action::Release));
    assert!(matches!(session.step(Input::Released(0, 0)), Action::Wait(41)));
    assert!(matches!(session.step(Input::Exited(41, 0)), Action::Fail(SessionError::Handshake)));
}

#[test]
fn short_read_while_stopping_fails_at_once() {
    let (mut session, _) = Session::new(vec![StatEvent::Cycles]);
    arm(&mut session, 42, 1);
    session.step(Input::Controlled(0));
    session.step(Input::ReadCount(8, count(3)));
    session.step(Input::Released(1, 0));
    assert!(matches!(session.step(Input::Exited(42, 5)), Action::Control(_)));
    session.step(Input::Controlled(0));
    assert!(matches!(
        session.step(Input::ReadCount(2, count(3))),
        Action::Fail(SessionError::Counter(StatEvent::Cycles, SysErr::ReadFail))
    ));
}
