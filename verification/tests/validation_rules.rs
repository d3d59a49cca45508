use text_entries::coordinator::{
    create_text_entry, delete_text_entry, deletes_from_details, record_from_details,
};
use text_entries::integrity::{
    validate_create_link_text_entry_updates, validate_create_text_entry,
    validate_delete_link_text_entry_updates, validate_delete_text_entry,
    validate_update_text_entry,
};
use text_entries::store::{Details, Store};
use text_entries::types::{Action, ActionContent, ErrorKind, LinkableAddress, TextEntry, ValidationOutcome};

fn te(content: &str) -> TextEntry {
    TextEntry { content: content.to_string() }
}

fn create_action(address: usize, timestamp: u64, content: &str) -> Action {
    Action { address, timestamp, content: ActionContent::Create { entry: te(content) } }
}

#[test]
fn payload_validators_accept_everything() {
    let a = create_action(0, 1, "anything");
    let entry = te("anything");
    assert_eq!(validate_create_text_entry(&a, &entry), ValidationOutcome::Valid);
    assert_eq!(validate_update_text_entry(&a, &entry, &a, &entry), ValidationOutcome::Valid);
    assert_eq!(validate_delete_text_entry(&a, &a, &entry), ValidationOutcome::Valid);
}

#[test]
fn creating_an_updates_link_between_entry_actions_is_valid() {
    let mut store = Store::new();
    let a = create_text_entry(&mut store, te("a"), 1).unwrap();
    let b = create_text_entry(&mut store, te("b"), 2).unwrap();
    let verdict = validate_create_link_text_entry_updates(
        &store,
        LinkableAddress::ActionAddr(a.address),
        LinkableAddress::ActionAddr(b.address),
    );
    assert_eq!(verdict, ValidationOutcome::Valid);
}

#[test]
fn creating_an_updates_link_from_a_non_action_address_is_invalid() {
    let mut store = Store::new();
    let a = create_text_entry(&mut store, te("a"), 1).unwrap();
    let verdict = validate_create_link_text_entry_updates(
        &store,
        LinkableAddress::EntryAddr(0),
        LinkableAddress::ActionAddr(a.address),
    );
    assert!(matches!(verdict, ValidationOutcome::Invalid(_)));
}

#[test]
fn creating_an_updates_link_to_a_dangling_target_is_invalid() {
    let mut store = Store::new();
    let a = create_text_entry(&mut store, te("a"), 1).unwrap();
    let verdict = validate_create_link_text_entry_updates(
        &store,
        LinkableAddress::ActionAddr(a.address),
        LinkableAddress::ActionAddr(33),
    );
    assert!(matches!(verdict, ValidationOutcome::Invalid(_)));
}

#[test]
fn creating_an_updates_link_to_a_payloadless_action_is_invalid() {
    let mut store = Store::new();
    let a = create_text_entry(&mut store, te("a"), 1).unwrap();
    let tombstone_addr = delete_text_entry(&mut store, a.address, 2).unwrap();
    let verdict = validate_create_link_text_entry_updates(
        &store,
        LinkableAddress::ActionAddr(a.address),
        LinkableAddress::ActionAddr(tombstone_addr),
    );
    assert!(matches!(verdict, ValidationOutcome::Invalid(_)));
}

#[test]
fn deleting_an_updates_link_is_always_invalid() {
    let endpoints = [
        LinkableAddress::ActionAddr(0),
        LinkableAddress::ActionAddr(7),
        LinkableAddress::EntryAddr(3),
    ];
    for base in endpoints {
        for target in endpoints {
            let verdict = validate_delete_link_text_entry_updates(base, target);
            assert!(matches!(verdict, ValidationOutcome::Invalid(_)));
        }
    }
}

#[test]
fn record_details_classify_to_their_action() {
    let action = create_action(4, 2, "x");
    let details = Details::Record { action: action.clone(), deletes: vec![] };
    assert_eq!(record_from_details(details).unwrap(), action);
}

#[test]
fn entry_details_are_malformed_for_record_operations() {
    let err = record_from_details(Details::Entry).unwrap_err();
    assert_eq!(err.kind, ErrorKind::Malformed);
    let err = deletes_from_details(Details::Entry).unwrap_err();
    assert_eq!(err.kind, ErrorKind::Malformed);
}

#[test]
fn record_details_carry_their_tombstones() {
    let action = create_action(0, 1, "x");
    let tombstone =
        Action { address: 1, timestamp: 2, content: ActionContent::Delete { deletes_address: 0 } };
    let details = Details::Record { action, deletes: vec![tombstone.clone()] };
    assert_eq!(deletes_from_details(details).unwrap(), vec![tombstone]);
}
