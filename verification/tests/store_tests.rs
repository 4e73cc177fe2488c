use boopboard::store::SampleStore;
use boopboard::digital::DigitalState;
use boopboard::N_CHANNELS;
use boopboard::N_LINES;

#[test]
fn read_before_first_cycle_is_empty() {
    let store = SampleStore::new();
    let snapshot = store.read_samples();
    assert!(snapshot.is_empty());
    assert_eq!(store.ambient_level(), None);
    assert_eq!(store.read_channel(0), None);
    assert_eq!(store.read_channel(7), None);
}

#[test]
fn one_cycle_publishes_every_channel_in_order() {
    let mut store = SampleStore::new();
    let readings: Vec<u16> = vec![10, 11, 12, 13, 14, 15, 16, 17];
    store.publish_from_readings(&readings);
    let snapshot = store.read_samples();
    assert_eq!(snapshot.len(), N_CHANNELS);
    assert_eq!(snapshot.as_slice(), &[10, 11, 12, 13, 14, 15, 16, 17]);
    for i in 0..N_CHANNELS {
        assert_eq!(store.read_channel(i), Some(10 + i as u16));
    }
}

#[test]
fn publish_replaces_wholesale_without_mixing() {
    let mut store = SampleStore::new();
    let first: Vec<u16> = vec![1, 1, 1, 1, 1, 1, 1, 1];
    let second: Vec<u16> = vec![2, 2, 2, 2, 2, 2, 2, 2];
    store.publish_from_readings(&first);
    store.publish_from_readings(&second);
    let snapshot = store.read_samples();
    for i in 0..N_CHANNELS {
        assert_eq!(snapshot[i], 2, "channel {} still held an old value", i);
    }
}

#[test]
fn publish_samples_takes_a_prebuilt_vector() {
    let mut store = SampleStore::new();
    let v: heapless::Vec<u16, 8> =
        heapless::Vec::from_slice(&[9, 8, 7, 6, 5, 4, 3, 2]).unwrap();
    store.publish_samples(v);
    assert_eq!(store.read_samples().as_slice(), &[9, 8, 7, 6, 5, 4, 3, 2]);
    assert_eq!(store.ambient_level(), Some(9));
}

#[test]
fn ambient_level_is_channel_zero() {
    let mut store = SampleStore::new();
    let readings: Vec<u16> = vec![42, 0, 0, 0, 0, 0, 0, 0];
    store.publish_from_readings(&readings);
    assert_eq!(store.ambient_level(), Some(42));
}

#[test]
fn read_channel_out_of_range_is_none() {
    let mut store = SampleStore::new();
    let readings: Vec<u16> = vec![0, 1, 2, 3, 4, 5, 6, 7];
    store.publish_from_readings(&readings);
    assert_eq!(store.read_channel(8), None);
    assert_eq!(store.read_channel(1000), None);
}

#[test]
fn fresh_digital_state_reads_all_low() {
    let state = DigitalState::new();
    let snapshot = state.snapshot();
    assert_eq!(snapshot.len(), N_LINES);
    for i in 0..N_LINES {
        assert!(!snapshot[i]);
        assert!(!state.get_line(i));
    }
}

#[test]
fn set_line_updates_only_its_index() {
    let mut state = DigitalState::new();
    state.set_line(2, true);
    let snapshot = state.snapshot();
    assert_eq!(snapshot.as_slice(), &[false, false, true, false]);
    state.set_line(0, true);
    state.set_line(2, false);
    let snapshot = state.snapshot();
    assert_eq!(snapshot.as_slice(), &[true, false, false, false]);
}
