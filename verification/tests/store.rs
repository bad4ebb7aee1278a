use ticket_actor::data::{Status, Ticket, TicketDraft, TicketId};
use ticket_actor::store::TicketStore;

fn draft(title: &str, description: &str) -> TicketDraft {
    TicketDraft { title: title.to_string(), description: description.to_string() }
}

#[test]
fn fresh_store_holds_nothing() {
    let store = TicketStore::new();
    assert!(!store.is_full());
    assert_eq!(store.get(TicketId(0)), None);
    assert_eq!(store.get(TicketId(1)), None);
    assert_eq!(store.get(TicketId(u64::MAX)), None);
}

#[test]
fn first_identifier_is_one() {
    let mut store = TicketStore::new();
    assert_eq!(store.add_ticket(draft("a", "b")), TicketId(1));
}

#[test]
fn identifiers_count_upwards() {
    let mut store = TicketStore::new();
    assert_eq!(store.add_ticket(draft("first", "one")), TicketId(1));
    assert_eq!(store.add_ticket(draft("second", "two")), TicketId(2));
    assert_eq!(store.add_ticket(draft("third", "three")), TicketId(3));
}

#[test]
fn added_ticket_is_found_with_the_drafts_texts() {
    let mut store = TicketStore::new();
    let id = store.add_ticket(draft("Fix the door", "It squeaks"));
    let expected = Ticket {
        id: TicketId(1),
        title: "Fix the door".to_string(),
        description: "It squeaks".to_string(),
        status: Status::ToDo,
    };
    assert_eq!(store.get(id), Some(&expected));
}

#[test]
fn each_ticket_stays_under_its_own_identifier() {
    let mut store = TicketStore::new();
    let first = store.add_ticket(draft("first", "one"));
    let second = store.add_ticket(draft("second", "two"));
    assert_ne!(first, second);
    assert_eq!(store.get(first).unwrap().title, "first");
    assert_eq!(store.get(first).unwrap().description, "one");
    assert_eq!(store.get(second).unwrap().title, "second");
    assert_eq!(store.get(second).unwrap().description, "two");
}

#[test]
fn identifiers_that_were_not_handed_out_find_nothing() {
    let mut store = TicketStore::new();
    store.add_ticket(draft("first", "one"));
    store.add_ticket(draft("second", "two"));
    assert_eq!(store.get(TicketId(0)), None);
    assert_eq!(store.get(TicketId(3)), None);
    assert_eq!(store.get(TicketId(u64::MAX)), None);
}

#[test]
fn empty_texts_are_kept_as_they_are() {
    let mut store = TicketStore::new();
    let id = store.add_ticket(draft("", ""));
    let ticket = store.get(id).unwrap();
    assert_eq!(ticket.title, "");
    assert_eq!(ticket.description, "");
    assert_eq!(ticket.status, Status::ToDo);
}

#[test]
fn file_keeps_the_texts_and_starts_as_to_do() {
    let ticket = Ticket::file(draft("t", "d"), TicketId(7));
    assert_eq!(ticket.id, TicketId(7));
    assert_eq!(ticket.title, "t");
    assert_eq!(ticket.description, "d");
    assert_eq!(ticket.status, Status::ToDo);
}

#[test]
fn clones_are_equal_to_what_they_were_made_from() {
    let first = draft("t", "d");
    assert_eq!(first.clone(), first);
    let ticket = Ticket::file(draft("t", "d"), TicketId(2));
    assert_eq!(ticket.clone(), ticket);
}
