use buildchain::{DurableCounter, DurableMap, Error, SegmentAllocator, SegmentName, MAX_RECORD_SIZE};
use ic_stable_structures::cell::{InitError, ValueError};

fn fresh_counter() -> DurableCounter {
    let mut segments = SegmentAllocator::init();
    DurableCounter::init(segments.take(SegmentName::Counter).unwrap()).unwrap()
}

fn fresh_map() -> DurableMap {
    let mut segments = SegmentAllocator::init();
    DurableMap::init(segments.take(SegmentName::Records).unwrap())
}

#[test]
fn each_name_has_its_own_segment_index() {
    assert_eq!(SegmentName::Counter.index(), 0);
    assert_eq!(SegmentName::Records.index(), 1);
    assert_ne!(SegmentName::Counter.index(), SegmentName::Records.index());
}

#[test]
fn a_segment_is_handed_out_once() {
    let mut segments = SegmentAllocator::init();
    assert!(segments.take(SegmentName::Counter).is_some());
    assert!(segments.take(SegmentName::Counter).is_none());
    assert!(segments.take(SegmentName::Records).is_some());
    assert!(segments.take(SegmentName::Records).is_none());
    assert!(segments.take(SegmentName::Counter).is_none());
}

#[test]
fn segments_do_not_overlap() {
    let mut segments = SegmentAllocator::init();
    let mut counter = DurableCounter::init(segments.take(SegmentName::Counter).unwrap()).unwrap();
    let mut map = DurableMap::init(segments.take(SegmentName::Records).unwrap());
    for key in 0..50u64 {
        assert_eq!(counter.increment_and_get_previous(), Ok(key));
        assert_eq!(map.insert(key, &[key as u8; 300]), Ok(None));
    }
    assert_eq!(counter.current(), 50);
    for key in 0..50u64 {
        assert_eq!(map.get(key), Some(vec![key as u8; 300]));
    }
    let counter = counter.reload().unwrap();
    let map = map.reload();
    assert_eq!(counter.current(), 50);
    assert_eq!(map.len(), 50);
}

#[test]
fn a_counter_on_fresh_memory_starts_at_zero() {
    assert_eq!(fresh_counter().current(), 0);
}

#[test]
fn reading_the_counter_does_not_change_it() {
    let counter = fresh_counter();
    assert_eq!(counter.current(), 0);
    assert_eq!(counter.current(), 0);
}

#[test]
fn minting_returns_the_value_before_the_increment() {
    let mut counter = fresh_counter();
    assert_eq!(counter.increment_and_get_previous(), Ok(0));
    assert_eq!(counter.current(), 1);
    assert_eq!(counter.increment_and_get_previous(), Ok(1));
    assert_eq!(counter.increment_and_get_previous(), Ok(2));
    assert_eq!(counter.current(), 3);
}

#[test]
fn the_counter_survives_a_reload() {
    let mut counter = fresh_counter();
    for expected in 0..5 {
        assert_eq!(counter.increment_and_get_previous(), Ok(expected));
    }
    let mut counter = counter.reload().unwrap();
    assert_eq!(counter.current(), 5);
    assert_eq!(counter.increment_and_get_previous(), Ok(5));
    let counter = counter.reload().unwrap().reload().unwrap();
    assert_eq!(counter.current(), 6);
}

#[test]
fn a_fresh_counter_survives_a_reload() {
    let counter = fresh_counter().reload().unwrap();
    assert_eq!(counter.current(), 0);
}

#[test]
fn a_refused_write_is_a_storage_failure() {
    assert_eq!(
        DurableCounter::reserved(Err(ValueError::ValueTooLarge { value_size: 8 })),
        Err(Error::StorageFatal)
    );
    assert_eq!(DurableCounter::reserved(Ok(41)), Ok(41));
}

#[test]
fn a_cell_that_cannot_be_set_up_is_a_storage_failure() {
    let too_large = DurableCounter::opened(Err(InitError::ValueTooLarge { value_size: 8 }));
    assert_eq!(too_large.err(), Some(Error::StorageFatal));
    let other_version = DurableCounter::opened(Err(InitError::IncompatibleVersion {
        last_supported_version: 1,
        decoded_version: 2,
    }));
    assert_eq!(other_version.err(), Some(Error::StorageFatal));
}

#[test]
fn a_map_on_fresh_memory_is_empty() {
    let map = fresh_map();
    assert_eq!(map.len(), 0);
    assert_eq!(map.get(0), None);
    assert_eq!(map.get(u64::MAX), None);
}

#[test]
fn insert_returns_what_it_replaces() {
    let mut map = fresh_map();
    assert_eq!(map.insert(7, b"first"), Ok(None));
    assert_eq!(map.insert(7, b"second"), Ok(Some(b"first".to_vec())));
    assert_eq!(map.get(7), Some(b"second".to_vec()));
    assert_eq!(map.len(), 1);
}

#[test]
fn get_finds_the_value_of_its_key_only() {
    let mut map = fresh_map();
    assert_eq!(map.insert(1, b"one"), Ok(None));
    assert_eq!(map.insert(2, b"two"), Ok(None));
    assert_eq!(map.insert(u64::MAX, b""), Ok(None));
    assert_eq!(map.get(1), Some(b"one".to_vec()));
    assert_eq!(map.get(2), Some(b"two".to_vec()));
    assert_eq!(map.get(u64::MAX), Some(Vec::new()));
    assert_eq!(map.get(3), None);
    assert_eq!(map.len(), 3);
}

#[test]
fn remove_returns_what_it_removes() {
    let mut map = fresh_map();
    assert_eq!(map.insert(1, b"one"), Ok(None));
    assert_eq!(map.insert(2, b"two"), Ok(None));
    assert_eq!(map.remove(1), Some(b"one".to_vec()));
    assert_eq!(map.get(1), None);
    assert_eq!(map.get(2), Some(b"two".to_vec()));
    assert_eq!(map.len(), 1);
    assert_eq!(map.remove(1), None);
    assert_eq!(map.remove(9), None);
    assert_eq!(map.len(), 1);
}

#[test]
fn a_value_of_the_largest_size_is_stored() {
    let mut map = fresh_map();
    let value = vec![0xAB; MAX_RECORD_SIZE];
    assert_eq!(map.insert(0, &value), Ok(None));
    assert_eq!(map.get(0), Some(value));
}

#[test]
fn a_value_one_byte_too_long_is_refused_and_nothing_changes() {
    let mut map = fresh_map();
    assert_eq!(map.insert(0, b"kept"), Ok(None));
    let value = vec![0xAB; MAX_RECORD_SIZE + 1];
    assert_eq!(map.insert(0, &value), Err(Error::OversizedRecord));
    assert_eq!(map.insert(1, &value), Err(Error::OversizedRecord));
    assert_eq!(map.get(0), Some(b"kept".to_vec()));
    assert_eq!(map.get(1), None);
    assert_eq!(map.len(), 1);
}

#[test]
fn the_map_survives_a_reload() {
    let mut map = fresh_map();
    for key in 0..200u64 {
        assert_eq!(map.insert(key, &key.to_le_bytes()), Ok(None));
    }
    for key in (0..200u64).step_by(3) {
        assert_eq!(map.remove(key), Some(key.to_le_bytes().to_vec()));
    }
    let mut map = map.reload();
    assert_eq!(map.len(), 133);
    for key in 0..200u64 {
        let expected = if key % 3 == 0 { None } else { Some(key.to_le_bytes().to_vec()) };
        assert_eq!(map.get(key), expected);
    }
    assert_eq!(map.insert(0, b"again"), Ok(None));
    let map = map.reload();
    assert_eq!(map.get(0), Some(b"again".to_vec()));
    assert_eq!(map.len(), 134);
}

#[test]
fn an_emptied_map_survives_a_reload() {
    let mut map = fresh_map();
    assert_eq!(map.insert(4, b"four"), Ok(None));
    assert_eq!(map.remove(4), Some(b"four".to_vec()));
    let map = map.reload();
    assert_eq!(map.len(), 0);
    assert_eq!(map.get(4), None);
}
