use framecast::channel::{FanoutChannel, NextResult};
use framecast::scheduler::{scheduler_step, SchedulerAction, SchedulerEvent};

#[test]
fn each_successful_tick_publishes_exactly_one_payload() {
    let mut ch = FanoutChannel::new(10);
    let mut c = ch.subscribe();
    let a = scheduler_step(&mut ch, SchedulerEvent::TickProduced(vec![42]));
    assert!(matches!(a, SchedulerAction::Published));
    assert_eq!(ch.published_count(), 1);
    match ch.next(&mut c) {
        NextResult::Payload(p) => assert_eq!(p, vec![42]),
        _ => panic!("expected the broadcast payload"),
    }
    assert!(matches!(ch.next(&mut c), NextResult::Pending));
}

#[test]
fn accepted_connection_spawns_session_reading_from_now() {
    let mut ch = FanoutChannel::new(10);
    let _ = scheduler_step(&mut ch, SchedulerEvent::TickProduced(vec![1]));
    let a = scheduler_step(&mut ch, SchedulerEvent::ConnectionReady);
    let mut cursor = match a {
        SchedulerAction::SpawnSession(c) => c,
        _ => panic!("expected a session to be spawned"),
    };
    assert_eq!(ch.published_count(), 1);
    assert!(matches!(ch.next(&mut cursor), NextResult::Pending));
    let _ = scheduler_step(&mut ch, SchedulerEvent::TickProduced(vec![2]));
    match ch.next(&mut cursor) {
        NextResult::Payload(p) => assert_eq!(p, vec![2]),
        _ => panic!("expected the payload published after subscribing"),
    }
}

#[test]
fn source_failure_is_fatal_and_publishes_nothing() {
    // The payload source fails mid-run: the loop must stop with a fatal
    // status and no delivery may be attempted past the failure.
    let mut ch = FanoutChannel::new(10);
    let _ = scheduler_step(&mut ch, SchedulerEvent::TickProduced(vec![1]));
    let mut c = ch.subscribe();
    let a = scheduler_step(&mut ch, SchedulerEvent::TickSourceFailed);
    assert!(matches!(a, SchedulerAction::FatalStop));
    assert_eq!(ch.published_count(), 1);
    assert!(matches!(ch.next(&mut c), NextResult::Pending));
}

#[test]
fn stop_request_shuts_down_cleanly() {
    let mut ch = FanoutChannel::new(10);
    let _ = scheduler_step(&mut ch, SchedulerEvent::TickProduced(vec![1]));
    let a = scheduler_step(&mut ch, SchedulerEvent::StopRequested);
    assert!(matches!(a, SchedulerAction::CleanShutdown));
    assert_eq!(ch.published_count(), 1);
    // Winding down may close the channel so that relays see the terminal
    // signal once drained.
    ch.close();
    let mut c = ch.subscribe();
    assert!(matches!(ch.next(&mut c), NextResult::Closed));
}
