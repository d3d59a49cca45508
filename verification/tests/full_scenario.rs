use text_entries::coordinator::{
    create_text_entry, delete_text_entry, get_all_deletes_for_text_entry,
    get_all_revisions_for_text_entry, get_latest_text_entry, get_oldest_delete_for_text_entry,
    update_text_entry, UpdateTextEntryInput,
};
use text_entries::store::Store;
use text_entries::types::{ActionContent, TextEntry};

fn te(content: &str) -> TextEntry {
    TextEntry { content: content.to_string() }
}

#[test]
fn one_entity_through_create_updates_and_delete() {
    let mut store = Store::new();

    // create {content:"a"} at address A
    let a = create_text_entry(&mut store, te("a"), 1).unwrap();

    // update to "b" at t=2, then to "c" at t=1: out-of-order arrival
    let b = update_text_entry(
        &mut store,
        UpdateTextEntryInput {
            original_text_entry_hash: a.address,
            previous_text_entry_hash: a.address,
            updated_text_entry: te("b"),
        },
        2,
    )
    .unwrap();
    let c = update_text_entry(
        &mut store,
        UpdateTextEntryInput {
            original_text_entry_hash: a.address,
            previous_text_entry_hash: a.address,
            updated_text_entry: te("c"),
        },
        1,
    )
    .unwrap();

    // the latest revision is b: t=2 beats t=1 whatever the arrival order
    let latest = get_latest_text_entry(&store, a.address).unwrap().unwrap();
    assert_eq!(latest, b);
    match &latest.content {
        ActionContent::Update { entry } => assert_eq!(entry.content, "b"),
        other => panic!("expected an update action, got {:?}", other),
    }

    // the history starts with a and holds b and c in edge-enumeration order
    let revisions = get_all_revisions_for_text_entry(&store, a.address).unwrap();
    assert_eq!(revisions, vec![a.clone(), b, c]);

    // delete at t=3: one tombstone, which is also the oldest
    let tombstone_addr = delete_text_entry(&mut store, a.address, 3).unwrap();
    let deletes = get_all_deletes_for_text_entry(&store, a.address).unwrap().unwrap();
    assert_eq!(deletes.len(), 1);
    assert_eq!(deletes[0].timestamp, 3);
    assert_eq!(deletes[0].address, tombstone_addr);
    let oldest = get_oldest_delete_for_text_entry(&store, a.address).unwrap().unwrap();
    assert_eq!(oldest, deletes[0]);
}
