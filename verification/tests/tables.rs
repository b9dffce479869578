use event_sink_map::entry::EventSinkEntry;
use event_sink_map::table::EventSinkTable;
use tokio::sync::watch;

#[test]
fn new_table_is_empty() {
    let table: EventSinkTable<u64, u32> = EventSinkTable::new();
    assert_eq!(table.len(), 0);
    assert_eq!(table.lookup(&1), None);
}

#[test]
fn default_table_is_empty() {
    let table: EventSinkTable<String, u32> = Default::default();
    assert_eq!(table.len(), 0);
}

#[test]
fn lookup_creates_nothing() {
    let table: EventSinkTable<u64, u32> = EventSinkTable::new();
    assert_eq!(table.lookup(&5), None);
    assert_eq!(table.lookup(&5), None);
    assert_eq!(table.len(), 0);
}

#[test]
fn entry_creates_the_slot_of_a_vacant_key() {
    let mut table: EventSinkTable<u64, u32> = EventSinkTable::new();
    assert_eq!(table.entry(5, || 70), 70);
    assert_eq!(table.len(), 1);
    assert_eq!(table.lookup(&5), Some(70));
}

#[test]
fn entry_is_idempotent() {
    let mut table: EventSinkTable<u64, u32> = EventSinkTable::new();
    assert_eq!(table.entry(5, || 70), 70);
    assert_eq!(table.entry(5, || 71), 70);
    assert_eq!(table.len(), 1);
    assert_eq!(table.lookup(&5), Some(70));
}

#[test]
fn entry_does_not_make_a_slot_for_a_present_key() {
    let mut table: EventSinkTable<u64, u32> = EventSinkTable::new();
    let mut made = 0;
    table.entry(5, || {
        made += 1;
        70
    });
    table.entry(5, || {
        made += 1;
        71
    });
    assert_eq!(made, 1);
}

#[test]
fn entry_of_another_key_leaves_the_first_alone() {
    let mut table: EventSinkTable<String, u32> = EventSinkTable::new();
    assert_eq!(table.entry("a".to_string(), || 1), 1);
    assert_eq!(table.entry("b".to_string(), || 2), 2);
    assert_eq!(table.entry("a".to_string(), || 3), 1);
    assert_eq!(table.lookup(&"a".to_string()), Some(1));
    assert_eq!(table.lookup(&"b".to_string()), Some(2));
    assert_eq!(table.lookup(&"c".to_string()), None);
    assert_eq!(table.len(), 2);
}

#[test]
fn entry_twice_hands_out_the_same_slot() {
    let (tx, rx) = watch::channel::<Option<u32>>(None);
    let (_other_tx, other_rx) = watch::channel::<Option<u32>>(None);
    let mut table: EventSinkTable<u64, EventSinkEntry<u32>> = EventSinkTable::new();
    let first = table.entry(9, || EventSinkEntry::new(rx));
    let unrelated = table.entry(10, || EventSinkEntry::new(other_rx));
    let (_late_tx, late_rx) = watch::channel::<Option<u32>>(None);
    let second = table.entry(9, || EventSinkEntry::new(late_rx));
    assert!(first.same_slot(&second));
    assert!(!first.same_slot(&unrelated));
    tx.send(Some(4)).unwrap();
    assert_eq!(first.try_get(), Some(4));
    assert_eq!(second.try_get(), Some(4));
    assert_eq!(unrelated.try_get(), None);
    let found = table.lookup(&9).unwrap();
    assert!(found.same_slot(&first));
}

#[test]
fn reader_first_and_producer_first_meet_in_one_slot() {
    let mut table: EventSinkTable<u64, EventSinkEntry<u32>> = EventSinkTable::new();
    let (tx, rx) = watch::channel::<Option<u32>>(None);
    let reader = table.entry(1, || EventSinkEntry::new(rx));
    assert_eq!(reader.try_get(), None);
    let (unused_tx, unused_rx) = watch::channel::<Option<u32>>(None);
    let producer_view = table.entry(1, || EventSinkEntry::new(unused_rx));
    assert!(producer_view.same_slot(&reader));
    assert!(unused_tx.send(Some(99)).is_err());
    assert_eq!(reader.try_get(), None);
    tx.send(Some(6)).unwrap();
    assert_eq!(reader.try_get(), Some(6));
}
