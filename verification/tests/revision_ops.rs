use text_entries::coordinator::{
    create_text_entry, get_all_revisions_for_text_entry, get_latest_text_entry,
    get_original_text_entry, update_text_entry, UpdateTextEntryInput,
};
use text_entries::store::Store;
use text_entries::types::{ActionContent, ErrorKind, LinkableAddress, TextEntry};

fn te(content: &str) -> TextEntry {
    TextEntry { content: content.to_string() }
}

fn update_input(original: usize, previous: usize, content: &str) -> UpdateTextEntryInput {
    UpdateTextEntryInput {
        original_text_entry_hash: original,
        previous_text_entry_hash: previous,
        updated_text_entry: te(content),
    }
}

#[test]
fn created_entry_round_trips_through_get_original() {
    let mut store = Store::new();
    let created = create_text_entry(&mut store, te("hello"), 7).unwrap();
    let original = get_original_text_entry(&store, created.address).unwrap().unwrap();
    assert_eq!(original, created);
    match &original.content {
        ActionContent::Create { entry } => assert_eq!(entry.content, "hello"),
        other => panic!("expected a create action, got {:?}", other),
    }
}

#[test]
fn latest_equals_original_when_never_updated() {
    let mut store = Store::new();
    let created = create_text_entry(&mut store, te("only"), 1).unwrap();
    let latest = get_latest_text_entry(&store, created.address).unwrap();
    let original = get_original_text_entry(&store, created.address).unwrap();
    assert_eq!(latest, original);
    assert_eq!(latest.unwrap(), created);
}

#[test]
fn latest_is_newest_update_in_timestamp_order() {
    let mut store = Store::new();
    let a = create_text_entry(&mut store, te("v1"), 1).unwrap();
    let _b = update_text_entry(&mut store, update_input(a.address, a.address, "v2"), 2).unwrap();
    let c = update_text_entry(&mut store, update_input(a.address, a.address, "v3"), 3).unwrap();
    let latest = get_latest_text_entry(&store, a.address).unwrap().unwrap();
    assert_eq!(latest, c);
    assert_eq!(latest.timestamp, 3);
}

#[test]
fn latest_resolves_by_timestamp_not_arrival_order() {
    // simulate out-of-order arrival: the newer timestamp is recorded first
    let mut store = Store::new();
    let a = create_text_entry(&mut store, te("a"), 1).unwrap();
    let b = update_text_entry(&mut store, update_input(a.address, a.address, "b"), 2).unwrap();
    let c = update_text_entry(&mut store, update_input(a.address, a.address, "c"), 1).unwrap();
    let latest = get_latest_text_entry(&store, a.address).unwrap().unwrap();
    assert_eq!(latest, b);
    let revisions = get_all_revisions_for_text_entry(&store, a.address).unwrap();
    assert_eq!(revisions, vec![a, b, c]);
}

#[test]
fn latest_tie_breaks_towards_the_last_recorded_edge() {
    let mut store = Store::new();
    let a = create_text_entry(&mut store, te("a"), 1).unwrap();
    let _b = update_text_entry(&mut store, update_input(a.address, a.address, "b"), 5).unwrap();
    let c = update_text_entry(&mut store, update_input(a.address, a.address, "c"), 5).unwrap();
    let latest = get_latest_text_entry(&store, a.address).unwrap().unwrap();
    assert_eq!(latest, c);
}

#[test]
fn latest_of_absent_original_is_none() {
    let store = Store::new();
    assert_eq!(get_latest_text_entry(&store, 3).unwrap(), None);
}

#[test]
fn latest_rejects_an_edge_without_an_action_target() {
    let mut store = Store::new();
    let a = create_text_entry(&mut store, te("a"), 1).unwrap();
    // a foreign writer recorded an edge whose target is no action reference
    store.append_edge(a.address, LinkableAddress::EntryAddr(9), 4);
    let err = get_latest_text_entry(&store, a.address).unwrap_err();
    assert_eq!(err.kind, ErrorKind::Malformed);
}

#[test]
fn revisions_of_absent_original_are_empty() {
    let store = Store::new();
    let revisions = get_all_revisions_for_text_entry(&store, 0).unwrap();
    assert!(revisions.is_empty());
}

#[test]
fn revisions_hold_original_first_then_one_action_per_update() {
    let mut store = Store::new();
    let a = create_text_entry(&mut store, te("a"), 1).unwrap();
    let b = update_text_entry(&mut store, update_input(a.address, a.address, "b"), 2).unwrap();
    let c = update_text_entry(&mut store, update_input(a.address, b.address, "c"), 3).unwrap();
    let revisions = get_all_revisions_for_text_entry(&store, a.address).unwrap();
    assert_eq!(revisions.len(), 3);
    assert_eq!(revisions[0], a);
    assert_eq!(revisions, vec![a, b, c]);
}

#[test]
fn revisions_propagate_a_dangling_update_target() {
    let mut store = Store::new();
    let a = create_text_entry(&mut store, te("a"), 1).unwrap();
    // a dangling forward reference: the edge's target was never committed
    store.append_edge(a.address, LinkableAddress::ActionAddr(40), 2);
    let err = get_all_revisions_for_text_entry(&store, a.address).unwrap_err();
    assert_eq!(err.kind, ErrorKind::NotFound);
}

#[test]
fn latest_fails_on_a_dangling_winning_target() {
    let mut store = Store::new();
    let a = create_text_entry(&mut store, te("a"), 1).unwrap();
    store.append_edge(a.address, LinkableAddress::ActionAddr(40), 2);
    let err = get_latest_text_entry(&store, a.address).unwrap_err();
    assert_eq!(err.kind, ErrorKind::NotFound);
}

#[test]
fn revisions_reject_an_edge_without_an_action_target() {
    let mut store = Store::new();
    let a = create_text_entry(&mut store, te("a"), 1).unwrap();
    store.append_edge(a.address, LinkableAddress::EntryAddr(2), 2);
    let err = get_all_revisions_for_text_entry(&store, a.address).unwrap_err();
    assert_eq!(err.kind, ErrorKind::Malformed);
}

#[test]
fn update_records_new_action_and_edge() {
    let mut store = Store::new();
    let a = create_text_entry(&mut store, te("first"), 1).unwrap();
    let b = update_text_entry(&mut store, update_input(a.address, a.address, "second"), 2).unwrap();
    assert_eq!(b.address, 1);
    assert_eq!(b.timestamp, 2);
    match &b.content {
        ActionContent::Update { entry } => assert_eq!(entry.content, "second"),
        other => panic!("expected an update action, got {:?}", other),
    }
    let latest = get_latest_text_entry(&store, a.address).unwrap().unwrap();
    assert_eq!(latest, b);
}

#[test]
fn update_with_dangling_previous_is_not_found() {
    let mut store = Store::new();
    let a = create_text_entry(&mut store, te("a"), 1).unwrap();
    let err = update_text_entry(&mut store, update_input(a.address, 9, "b"), 2).unwrap_err();
    assert_eq!(err.kind, ErrorKind::NotFound);
    // nothing committed
    assert_eq!(get_all_revisions_for_text_entry(&store, a.address).unwrap().len(), 1);
}

#[test]
fn update_whose_previous_carries_no_entry_is_malformed() {
    let mut store = Store::new();
    let a = create_text_entry(&mut store, te("a"), 1).unwrap();
    let tombstone_addr =
        text_entries::coordinator::delete_text_entry(&mut store, a.address, 2).unwrap();
    let err =
        update_text_entry(&mut store, update_input(a.address, tombstone_addr, "b"), 3).unwrap_err();
    assert_eq!(err.kind, ErrorKind::Malformed);
}

#[test]
fn update_whose_original_fails_link_validation_is_rejected() {
    let mut store = Store::new();
    let a = create_text_entry(&mut store, te("a"), 1).unwrap();
    // the base of the would-be edge does not resolve to any action
    let err = update_text_entry(&mut store, update_input(17, a.address, "b"), 2).unwrap_err();
    assert_eq!(err.kind, ErrorKind::ValidationRejected);
    assert!(!err.message.is_empty());
    // nothing committed
    assert_eq!(get_all_revisions_for_text_entry(&store, a.address).unwrap().len(), 1);
}
