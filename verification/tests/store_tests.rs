//! The consumer-side data store: dense growth, append order, and the rule
//! that empty markers never enter it.

use arduino_link::data_store::DataStore;
use arduino_link::packet::PacketData;

#[test]
fn first_packet_for_a_new_id_grows_the_store_densely() {
    let mut store = DataStore::new();
    assert_eq!(store.len(), 0);
    store.record(PacketData::Integer(7, 3, 0));
    assert_eq!(store.len(), 4);
    for id in 0..3 {
        assert!(store.series(id).unwrap().is_empty());
    }
    assert_eq!(store.series(3).unwrap().as_slice(), &[PacketData::Integer(7, 3, 0)]);
}

#[test]
fn id_zero_on_an_empty_store_grows_to_one() {
    let mut store = DataStore::new();
    store.record(PacketData::Text("a".to_owned(), 0, 1));
    assert_eq!(store.len(), 1);
    assert_eq!(store.series(0).unwrap().len(), 1);
}

#[test]
fn appending_preserves_prior_entries_and_their_order() {
    let mut store = DataStore::new();
    store.record(PacketData::Integer(1, 0, 10));
    store.record(PacketData::Integer(2, 0, 11));
    store.record(PacketData::Text("x".to_owned(), 2, 12));
    store.record(PacketData::Integer(3, 0, 13));
    assert_eq!(store.len(), 3);
    assert_eq!(
        store.series(0).unwrap().as_slice(),
        &[
            PacketData::Integer(1, 0, 10),
            PacketData::Integer(2, 0, 11),
            PacketData::Integer(3, 0, 13),
        ],
    );
    assert!(store.series(1).unwrap().is_empty());
    assert_eq!(store.series(2).unwrap().as_slice(), &[PacketData::Text("x".to_owned(), 2, 12)]);
}

#[test]
fn the_store_never_shrinks() {
    let mut store = DataStore::new();
    store.record(PacketData::Integer(1, 5, 0));
    assert_eq!(store.len(), 6);
    store.record(PacketData::Integer(2, 1, 0));
    assert_eq!(store.len(), 6);
    assert_eq!(store.series(5).unwrap().len(), 1);
}

#[test]
fn the_highest_id_grows_the_store_to_its_full_width() {
    let mut store = DataStore::new();
    store.record(PacketData::Integer(9, 255, 0));
    assert_eq!(store.len(), 256);
    assert_eq!(store.series(255).unwrap().len(), 1);
}

#[test]
fn empty_markers_are_never_stored() {
    let mut store = DataStore::new();
    store.record(PacketData::Empty);
    assert_eq!(store.len(), 0);
    store.record(PacketData::Integer(1, 1, 0));
    store.record(PacketData::Empty);
    assert_eq!(store.len(), 2);
    assert_eq!(store.series(1).unwrap().len(), 1);
}

#[test]
fn series_outside_the_store_is_absent() {
    let mut store = DataStore::new();
    assert!(store.series(0).is_none());
    store.record(PacketData::Integer(1, 1, 0));
    assert!(store.series(2).is_none());
}
