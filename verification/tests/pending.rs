use std::sync::mpsc;
use ticket_actor::pending::Pending;
use ticket_actor::worker::{WorkerGone, WorkerState};

#[test]
fn settle_passes_the_answer_on() {
    assert_eq!(Pending::settle(Some(7u64)), Ok(7));
    assert_eq!(Pending::settle(Some("text")), Ok("text"));
}

#[test]
fn settle_reports_a_channel_that_closed_unanswered() {
    assert_eq!(Pending::<u64>::settle(None), Err(WorkerGone));
}

#[test]
fn accepted_request_yields_what_arrives_on_its_channel() {
    let (tx, rx) = mpsc::channel();
    let pending = Pending::accepted(rx);
    tx.send(42u64).unwrap();
    assert_eq!(pending.wait(), Ok(42));
}

#[test]
fn accepted_request_reads_one_answer_only() {
    let (tx, rx) = mpsc::channel();
    let pending = Pending::accepted(rx);
    tx.send(1u64).unwrap();
    tx.send(2u64).unwrap();
    assert_eq!(pending.wait(), Ok(1));
}

#[test]
fn accepted_request_fails_when_its_channel_closes() {
    let (tx, rx) = mpsc::channel::<u64>();
    let pending = Pending::accepted(rx);
    drop(tx);
    assert_eq!(pending.wait(), Err(WorkerGone));
}

#[test]
fn worker_states_differ() {
    assert_ne!(WorkerState::Running, WorkerState::Stopped);
}
