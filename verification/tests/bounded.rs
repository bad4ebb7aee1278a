use std::sync::mpsc;
use ticket_actor::bounded::{
    after_attempt, channel, prepare, server, step, ErrorChannelFull, RequestError, Worker,
};
use ticket_actor::transport::Refused;
use ticket_actor::data::{Status, Ticket, TicketDraft, TicketId};
use ticket_actor::worker::{WorkerGone, WorkerState};
use ticket_actor::store::TicketStore;

fn draft(title: &str, description: &str) -> TicketDraft {
    TicketDraft { title: title.to_string(), description: description.to_string() }
}

fn ticket(id: u64, title: &str, description: &str) -> Ticket {
    Ticket {
        id: TicketId(id),
        title: title.to_string(),
        description: description.to_string(),
        status: Status::ToDo,
    }
}

#[test]
fn bounded_insert_then_get_returns_the_draft() {
    let (client, inbox) = channel(1);
    let mut store = TicketStore::new();

    let pending = client.request_insert(draft("Fix the door", "It squeaks")).unwrap();
    assert_eq!(server(&inbox, &mut store), WorkerState::Running);
    let id = pending.wait().unwrap();
    assert_eq!(id, TicketId(1));

    let pending = client.request_get(id).unwrap();
    assert_eq!(server(&inbox, &mut store), WorkerState::Running);
    assert_eq!(pending.wait().unwrap(), Some(ticket(1, "Fix the door", "It squeaks")));
}

#[test]
fn bounded_get_of_unknown_identifier_is_absent() {
    let (client, inbox) = channel(2);
    let mut store = TicketStore::new();

    let fresh = client.request_get(TicketId(1)).unwrap();
    server(&inbox, &mut store);
    assert_eq!(fresh.wait().unwrap(), None);

    let inserted = client.request_insert(draft("a", "b")).unwrap();
    server(&inbox, &mut store);
    assert_eq!(inserted.wait().unwrap(), TicketId(1));

    let zero = client.request_get(TicketId(0)).unwrap();
    let next = client.request_get(TicketId(2)).unwrap();
    server(&inbox, &mut store);
    server(&inbox, &mut store);
    assert_eq!(zero.wait().unwrap(), None);
    assert_eq!(next.wait().unwrap(), None);
}

#[test]
fn bounded_full_channel_hands_the_draft_back() {
    let (client, inbox) = channel(1);
    let mut store = TicketStore::new();

    // The worker does not take its turn, so the first request fills the
    // channel and the second finds no room.
    let first = client.request_insert(draft("first", "takes the only place")).unwrap();
    let submitted = draft("second", "finds no room");
    let rejected = client.request_insert(submitted.clone()).unwrap_err();
    assert_eq!(rejected.input(), &submitted);
    assert_eq!(rejected.into_input(), submitted);

    // Nothing of the rejected request reached the worker.
    assert_eq!(server(&inbox, &mut store), WorkerState::Running);
    assert_eq!(first.wait().unwrap(), TicketId(1));
    assert_eq!(store.get(TicketId(2)), None);
}

#[test]
fn bounded_full_channel_hands_the_identifier_back() {
    let (client, _inbox) = channel(1);
    let _first = client.request_get(TicketId(5)).unwrap();
    let rejected = client.request_get(TicketId(9)).unwrap_err();
    assert_eq!(*rejected.input(), TicketId(9));
    assert_eq!(rejected.into_input(), TicketId(9));
}

#[test]
fn bounded_blocking_calls_hand_their_input_back_when_the_channel_is_full() {
    let (client, _inbox) = channel(1);
    let _first = client.request_insert(draft("first", "x")).unwrap();

    match client.insert(draft("second", "y")) {
        Err(RequestError::ChannelFull(rejected)) => {
            assert_eq!(rejected.into_input(), draft("second", "y"))
        }
        other => panic!("expected a rejection, got {:?}", other),
    }
    match client.get(TicketId(3)) {
        Err(RequestError::ChannelFull(rejected)) => assert_eq!(rejected.into_input(), TicketId(3)),
        other => panic!("expected a rejection, got {:?}", other),
    }
}

#[test]
fn bounded_rejected_request_can_be_retried_after_a_worker_turn() {
    let (client, inbox) = channel(1);
    let mut store = TicketStore::new();

    let first = client.request_insert(draft("first", "x")).unwrap();
    let rejected = client.request_insert(draft("second", "y")).unwrap_err();
    assert_eq!(server(&inbox, &mut store), WorkerState::Running);
    assert_eq!(first.wait().unwrap(), TicketId(1));

    let retried = client.request_insert(rejected.into_input()).unwrap();
    assert_eq!(server(&inbox, &mut store), WorkerState::Running);
    let id = retried.wait().unwrap();
    assert_eq!(id, TicketId(2));
    assert_eq!(store.get(id), Some(&ticket(2, "second", "y")));
}

#[test]
fn bounded_capacity_one_accepts_exactly_one_of_two_undrained_inserts() {
    let (client, inbox) = channel(1);
    let mut store = TicketStore::new();

    let a = client.request_insert(draft("A", "a")).unwrap();
    assert_eq!(server(&inbox, &mut store), WorkerState::Running);
    assert_eq!(a.wait().unwrap(), TicketId(1));

    // Two callers, and no worker turn between their attempts.
    let first_caller = client.clone();
    let second_caller = client.clone();
    let b = first_caller.request_insert(draft("B", "b"));
    let c = second_caller.request_insert(draft("C", "c"));
    assert!(b.is_ok());
    match c {
        Err(rejected) => assert_eq!(rejected.into_input(), draft("C", "c")),
        Ok(_) => panic!("the channel had no room for a second request"),
    }

    assert_eq!(server(&inbox, &mut store), WorkerState::Running);
    assert_eq!(b.unwrap().wait().unwrap(), TicketId(2));
    assert_eq!(store.get(TicketId(2)), Some(&ticket(2, "B", "b")));
    assert_eq!(store.get(TicketId(3)), None);
}

#[test]
fn bounded_channel_takes_as_many_requests_as_its_capacity() {
    let (client, inbox) = channel(3);
    let mut store = TicketStore::new();

    let one = client.request_insert(draft("1", "")).unwrap();
    let two = client.request_insert(draft("2", "")).unwrap();
    let three = client.request_insert(draft("3", "")).unwrap();
    assert!(client.request_insert(draft("4", "")).is_err());

    // One worker turn makes room for one more.
    assert_eq!(server(&inbox, &mut store), WorkerState::Running);
    let four = client.request_insert(draft("4", "")).unwrap();
    assert!(client.request_insert(draft("5", "")).is_err());

    for _ in 0..3 {
        assert_eq!(server(&inbox, &mut store), WorkerState::Running);
    }
    assert_eq!(one.wait().unwrap(), TicketId(1));
    assert_eq!(two.wait().unwrap(), TicketId(2));
    assert_eq!(three.wait().unwrap(), TicketId(3));
    assert_eq!(four.wait().unwrap(), TicketId(4));
    assert_eq!(store.get(TicketId(4)), Some(&ticket(4, "4", "")));
}

#[test]
fn bounded_worker_gone_is_reported_like_a_full_channel() {
    let (client, inbox) = channel(4);
    drop(inbox);

    let rejected = client.request_insert(draft("lost?", "no")).unwrap_err();
    assert_eq!(rejected.into_input(), draft("lost?", "no"));
    let rejected = client.request_get(TicketId(8)).unwrap_err();
    assert_eq!(rejected.into_input(), TicketId(8));

    match client.insert(draft("again", "z")) {
        Err(RequestError::ChannelFull(rejected)) => {
            assert_eq!(rejected.into_input(), draft("again", "z"))
        }
        other => panic!("expected a rejection, got {:?}", other),
    }
    match client.get(TicketId(1)) {
        Err(RequestError::ChannelFull(rejected)) => assert_eq!(rejected.into_input(), TicketId(1)),
        other => panic!("expected a rejection, got {:?}", other),
    }
}

#[test]
fn bounded_accepted_request_fails_when_the_worker_dies_before_answering() {
    let (client, inbox) = channel(2);
    let insert = client.request_insert(draft("a", "b")).unwrap();
    let get = client.request_get(TicketId(1)).unwrap();
    drop(inbox);
    assert_eq!(insert.wait(), Err(WorkerGone));
    assert_eq!(get.wait(), Err(WorkerGone));
}

#[test]
fn bounded_worker_stops_once_every_handle_is_dropped() {
    let (client, inbox) = channel(2);
    let other = client.clone();
    let mut store = TicketStore::new();

    let first = client.request_insert(draft("one", "1")).unwrap();
    let second = other.request_get(TicketId(1)).unwrap();
    drop(client);
    drop(other);

    let mut rounds = 0;
    while server(&inbox, &mut store) == WorkerState::Running {
        rounds += 1;
    }
    assert_eq!(rounds, 2);
    assert_eq!(first.wait().unwrap(), TicketId(1));
    assert_eq!(second.wait().unwrap(), Some(ticket(1, "one", "1")));
    assert_eq!(server(&inbox, &mut store), WorkerState::Stopped);
}

#[test]
fn bounded_answer_that_nobody_waits_for_is_dropped() {
    let (client, inbox) = channel(2);
    let mut store = TicketStore::new();

    drop(client.request_insert(draft("abandoned", "x")).unwrap());
    drop(client.request_get(TicketId(1)).unwrap());
    assert_eq!(server(&inbox, &mut store), WorkerState::Running);
    assert_eq!(server(&inbox, &mut store), WorkerState::Running);
    assert_eq!(store.get(TicketId(1)), Some(&ticket(1, "abandoned", "x")));
}

#[test]
fn bounded_rendezvous_channel_rejects_when_no_worker_waits() {
    let (client, _inbox) = channel(0);
    let rejected = client.request_insert(draft("no room at all", "x")).unwrap_err();
    assert_eq!(rejected.into_input(), draft("no room at all", "x"));
}

#[test]
fn channel_full_error_reads_channel_is_full() {
    let error = ErrorChannelFull::new(TicketId(4));
    assert_eq!(error.message(), "Channel is Full");
    assert_eq!(*error.input(), TicketId(4));
    assert_eq!(error.into_input(), TicketId(4));
}

#[test]
fn bounded_step_without_a_command_stops_and_leaves_the_store() {
    let mut store = TicketStore::new();
    store.add_ticket(draft("kept", "k"));
    assert_eq!(step(&mut store, None), WorkerState::Stopped);
    assert_eq!(store.get(TicketId(1)), Some(&ticket(1, "kept", "k")));
    assert_eq!(store.get(TicketId(2)), None);
}

#[test]
fn bounded_step_with_a_command_serves_it_and_keeps_running() {
    let (client, inbox) = channel(1);
    let mut store = TicketStore::new();

    let pending = client.request_insert(draft("stepped", "s")).unwrap();
    assert_eq!(step(&mut store, inbox.recv().ok()), WorkerState::Running);
    assert_eq!(pending.wait().unwrap(), TicketId(1));

    drop(client);
    assert_eq!(step(&mut store, inbox.recv().ok()), WorkerState::Stopped);
}

#[test]
fn bounded_prepared_answer_arrives_only_when_delivered() {
    let (client, inbox) = channel(1);
    let mut store = TicketStore::new();

    let pending = client.request_insert(draft("prepared", "p")).unwrap();
    let outgoing = prepare(&mut store, inbox.recv().unwrap());
    assert_eq!(store.get(TicketId(1)), Some(&ticket(1, "prepared", "p")));
    outgoing.deliver();
    assert_eq!(pending.wait().unwrap(), TicketId(1));

    let pending = client.request_get(TicketId(1)).unwrap();
    prepare(&mut store, inbox.recv().unwrap()).deliver();
    assert_eq!(pending.wait().unwrap(), Some(ticket(1, "prepared", "p")));
}

#[test]
fn after_attempt_is_pending_when_the_request_was_taken() {
    let (tx, rx) = mpsc::channel();
    let taken: Result<(), Refused<TicketDraft>> = Ok(());
    let pending = after_attempt(taken, rx).unwrap();
    tx.send(TicketId(3)).unwrap();
    assert_eq!(pending.wait(), Ok(TicketId(3)));
}

#[test]
fn after_attempt_hands_the_draft_back_for_either_reason() {
    let (_tx, rx) = mpsc::channel::<TicketId>();
    let full = Err(Refused::Full(draft("full", "f")));
    assert_eq!(after_attempt(full, rx).unwrap_err().into_input(), draft("full", "f"));

    let (_tx, rx) = mpsc::channel::<TicketId>();
    let gone = Err(Refused::Disconnected(draft("gone", "g")));
    assert_eq!(after_attempt(gone, rx).unwrap_err().into_input(), draft("gone", "g"));
}

#[test]
fn after_attempt_hands_the_identifier_back_for_either_reason() {
    let (_tx, rx) = mpsc::channel::<Option<Ticket>>();
    let full = Err(Refused::Full(TicketId(11)));
    assert_eq!(after_attempt(full, rx).unwrap_err().into_input(), TicketId(11));

    let (_tx, rx) = mpsc::channel::<Option<Ticket>>();
    let gone = Err(Refused::Disconnected(TicketId(12)));
    assert_eq!(after_attempt(gone, rx).unwrap_err().into_input(), TicketId(12));
}

#[test]
fn refused_message_comes_back_for_either_reason() {
    assert_eq!(Refused::Full(3u8).into_message(), 3);
    assert_eq!(Refused::Disconnected(4u8).into_message(), 4);
}

#[test]
fn after_wait_passes_the_answer_on() {
    let waited: Result<TicketId, WorkerGone> = Ok(TicketId(6));
    match RequestError::<TicketDraft>::after_wait(waited) {
        Ok(id) => assert_eq!(id, TicketId(6)),
        Err(error) => panic!("expected the answer, got {:?}", error),
    }
}

#[test]
fn after_wait_reports_a_worker_that_is_gone() {
    let waited: Result<TicketId, WorkerGone> = Err(WorkerGone);
    assert!(matches!(
        RequestError::<TicketDraft>::after_wait(waited),
        Err(RequestError::WorkerGone)
    ));
}

#[test]
fn bounded_reply_finds_room_before_the_caller_waits() {
    let (client, inbox) = channel(2);
    let mut store = TicketStore::new();

    // Both requests are served, and their replies sent, before either caller
    // begins to wait.
    let insert = client.request_insert(draft("early", "e")).unwrap();
    let get = client.request_get(TicketId(1)).unwrap();
    assert_eq!(server(&inbox, &mut store), WorkerState::Running);
    assert_eq!(server(&inbox, &mut store), WorkerState::Running);
    assert_eq!(insert.wait(), Ok(TicketId(1)));
    assert_eq!(get.wait(), Ok(Some(ticket(1, "early", "e"))));
}

#[test]
fn bounded_worker_starts_with_an_empty_store() {
    let (_client, inbox) = channel(1);
    let worker = Worker::new(inbox);
    assert_eq!(worker.store().get(TicketId(1)), None);
    assert!(!worker.store().is_full());
}

#[test]
fn bounded_worker_takes_turns_until_no_handle_is_left() {
    let (client, inbox) = channel(2);
    let mut worker = Worker::new(inbox);

    let first = client.request_insert(draft("one", "1")).unwrap();
    let second = client.request_get(TicketId(1)).unwrap();
    assert_eq!(worker.turn(), WorkerState::Running);
    assert_eq!(worker.turn(), WorkerState::Running);
    assert_eq!(first.wait().unwrap(), TicketId(1));
    assert_eq!(second.wait().unwrap(), Some(ticket(1, "one", "1")));

    drop(client);
    assert_eq!(worker.turn(), WorkerState::Stopped);
    assert_eq!(worker.store().get(TicketId(1)), Some(&ticket(1, "one", "1")));
}
