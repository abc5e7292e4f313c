use honeybee::distrib::{
    key_file, length_matches, Action, Event, Phase, Worker, BACKOFF_SECS, FILE_MODE, OUTPUT_DIR,
};

fn connected() -> Worker {
    let mut w = Worker::new(true);
    assert_eq!(w.step(Event::Start), Action::Connect);
    assert_eq!(w.step(Event::Connected), Action::AuthAgent);
    assert_eq!(w.step(Event::AuthOk), Action::Receive);
    assert_eq!(w.phase(), Phase::Waiting);
    w
}

#[test]
fn five_resources_survive_a_lost_session() {
    let mut w = connected();
    assert_eq!(w.step(Event::Notice(3)), Action::Drain);
    assert_eq!(
        w.step(Event::Drained(vec![1, 4, 1, 5, 9, 3])),
        Action::Copy(vec![3, 1, 4, 5, 9])
    );
    assert_eq!(w.step(Event::CopyFailed), Action::Sleep(10));
    assert_eq!(w.pending(), &vec![3, 1, 4, 5, 9]);
    assert_eq!(w.step(Event::Slept), Action::Connect);
    assert_eq!(w.step(Event::ConnectFailed), Action::Sleep(10));
    assert_eq!(w.step(Event::Slept), Action::Connect);
    assert_eq!(w.step(Event::Connected), Action::AuthAgent);
    // something is pending: no blocking wait
    assert_eq!(w.step(Event::AuthOk), Action::Drain);
    assert_eq!(w.step(Event::Drained(vec![])), Action::Copy(vec![3, 1, 4, 5, 9]));
    assert_eq!(w.step(Event::Copied), Action::Receive);
    assert!(w.pending().is_empty());
    assert_eq!(w.phase(), Phase::Waiting);
}

#[test]
fn notices_queued_during_the_outage_join_the_batch() {
    let mut w = connected();
    w.step(Event::Notice(7));
    w.step(Event::Drained(vec![8]));
    w.step(Event::CopyFailed);
    w.step(Event::Slept);
    w.step(Event::Connected);
    assert_eq!(w.step(Event::AuthOk), Action::Drain);
    assert_eq!(w.step(Event::Drained(vec![8, 2, 7, 2])), Action::Copy(vec![7, 8, 2]));
}

#[test]
fn agent_first_then_key_file() {
    let mut w = Worker::new(true);
    w.step(Event::Start);
    assert_eq!(w.step(Event::Connected), Action::AuthAgent);
    assert_eq!(w.step(Event::AuthFailed), Action::AuthKey);
    assert_eq!(w.phase(), Phase::AuthKey);
    assert_eq!(w.step(Event::AuthOk), Action::Receive);
    let mut w = Worker::new(true);
    w.step(Event::Start);
    w.step(Event::Connected);
    w.step(Event::AuthFailed);
    assert_eq!(w.step(Event::AuthFailed), Action::Sleep(BACKOFF_SECS));
    assert_eq!(w.phase(), Phase::Backoff);
    assert_eq!(key_file("tms"), "/home/tms/.ssh/id_rsa");
}

#[test]
fn without_destination_notices_are_discarded() {
    let mut w = Worker::new(false);
    assert_eq!(w.phase(), Phase::Idle);
    assert_eq!(w.step(Event::Start), Action::Receive);
    assert_eq!(w.step(Event::Notice(4)), Action::Discard(4));
    assert_eq!(w.step(Event::Notice(4)), Action::Discard(4));
    assert!(w.pending().is_empty());
    assert_eq!(w.phase(), Phase::Discarding);
    assert_eq!(w.step(Event::Closed), Action::Stop);
    assert_eq!(w.phase(), Phase::Stopped);
    assert_eq!(w.step(Event::Notice(1)), Action::Stop);
}

#[test]
fn closed_queue_leads_to_a_new_session() {
    let mut w = connected();
    assert_eq!(w.step(Event::Closed), Action::Connect);
    assert_eq!(w.phase(), Phase::Connecting);
}

#[test]
fn unexpected_events_change_nothing() {
    let mut w = connected();
    assert_eq!(w.step(Event::Copied), Action::Receive);
    assert_eq!(w.phase(), Phase::Waiting);
    w.step(Event::Notice(2));
    assert_eq!(w.step(Event::Notice(3)), Action::Drain);
    assert_eq!(w.pending(), &vec![2]);
    w.step(Event::Drained(vec![]));
    assert_eq!(w.step(Event::Slept), Action::Copy(vec![2]));
    let mut idle = Worker::new(true);
    assert_eq!(idle.step(Event::Copied), Action::Stop);
    assert_eq!(idle.phase(), Phase::Idle);
}

#[test]
fn transfer_length_and_constants() {
    assert!(length_matches(120, 120));
    assert!(!length_matches(119, 120));
    assert_eq!(FILE_MODE, 0o644);
    assert_eq!(BACKOFF_SECS, 10);
    assert_eq!(OUTPUT_DIR, "/var/www/html/iris/");
}
