//! Behaviour of the trusted store and its two access handles.

use light_pred::trusted_store::{TSReadWriter, TrustedStore};
use light_pred::types::{Header, TrustedState, Validator, ValidatorSet};

fn state(height: u64, set_hash: u64) -> TrustedState {
    TrustedState {
        header: Header {
            height,
            bft_time: height * 100,
            validators_hash: set_hash,
            next_validators_hash: set_hash,
        },
        validators: ValidatorSet {
            hash: set_hash,
            validators: vec![Validator { id: 1, power: 100 }],
        },
    }
}

#[test]
fn store_get_and_set() {
    let mut store = TrustedStore::new();
    assert!(store.get(10).is_none());
    store.set(10, state(10, 1010));
    let got = store.get(10).unwrap();
    assert_eq!(got.header.height, 10);
    assert_eq!(got.validators.hash, 1010);
    // Entries are replaced whole, never merged.
    store.set(10, state(10, 2020));
    assert_eq!(store.get(10).unwrap().validators.hash, 2020);
}

#[test]
fn reads_return_independent_copies() {
    let rw = TSReadWriter::new(TrustedStore::new());
    rw.set(10, state(10, 1010));
    let mut copy = rw.get(10).unwrap();
    copy.validators.hash = 7777;
    // Mutating the copy never touches the stored entry.
    assert_eq!(rw.get(10).unwrap().validators.hash, 1010);
}

#[test]
fn writes_to_distinct_heights_never_interfere() {
    let rw = TSReadWriter::new(TrustedStore::new());
    let reader = rw.reader();
    rw.set(10, state(10, 1010));
    let before = reader.get(10).unwrap();
    // A concurrent-style write of height 11 leaves height 10 untouched.
    rw.set(11, state(11, 1111));
    let after = reader.get(10).unwrap();
    assert_eq!(before.header, after.header);
    assert_eq!(before.validators.hash, after.validators.hash);
    assert_eq!(reader.get(11).unwrap().header.height, 11);
    assert!(reader.get(12).is_none());
}

#[test]
fn reader_and_writer_share_one_store() {
    let rw = TSReadWriter::new(TrustedStore::new());
    let reader = rw.reader();
    assert!(reader.get(5).is_none());
    rw.set(5, state(5, 55));
    assert_eq!(reader.get(5).unwrap().validators.hash, 55);
    assert_eq!(rw.get(5).unwrap().validators.hash, 55);
}
