//! The height-indexed store of trusted states, and the two access handles
//! that share it behind a reader/writer lock.
//!
//! The store owns the mapping from height to [`TrustedState`]; entries are
//! only ever inserted or replaced whole, never mutated in place. The handles
//! wrap one shared store: any number of readers may proceed together, a
//! writer excludes everyone, and a read hands out an independent copy of the
//! stored state, so a reader's view is a consistent snapshot as of the read.

use std::collections::HashMap;
use std::sync::Arc;
use vstd::prelude::*;
use vstd::rwlock::RwLock;
use vstd::rwlock::RwLockPredicate;
use crate::types::Height;
use crate::types::TrustedState;

verus! {

broadcast use vstd::std_specs::hash::group_hash_axioms;

/// The height-indexed map of trusted states.
pub struct TrustedStore {
    store: HashMap<Height, TrustedState>,
}

impl TrustedStore {
    /// The mathematical map this store holds.
    pub closed spec fn view(&self) -> Map<Height, TrustedState> {
        self.store@
    }

    /// Build an empty store.
    pub fn new() -> (r: Self)
        ensures
            r@ == Map::<Height, TrustedState>::empty(),
    {
        TrustedStore { store: HashMap::new() }
    }

    /// The trusted state anchored at `height`, if any.
    pub fn get(&self, height: Height) -> (r: Option<&TrustedState>)
        ensures
            match r {
                Some(ts) => self@.contains_key(height) && *ts == self@[height],
                None => !self@.contains_key(height),
            },
    {
        self.store.get(&height)
    }

    /// Anchor `trusted_state` at `height`, replacing whatever was there.
    pub fn set(&mut self, height: Height, trusted_state: TrustedState)
        ensures
            final(self)@ == old(self)@.insert(height, trusted_state),
    {
        self.store.insert(height, trusted_state);
    }
}

/// Writing one height never disturbs another: after anchoring a state at
/// `written`, every other height still maps to exactly what it mapped to
/// before.
pub proof fn lemma_store_isolation(
    store: Map<Height, TrustedState>,
    written: Height,
    state: TrustedState,
    other: Height,
)
    requires
        written != other,
    ensures
        store.insert(written, state).contains_key(other) == store.contains_key(other),
        store.contains_key(other) ==> store.insert(written, state)[other] == store[other],
{
}

/// The lock predicate of the shared store: any map of trusted states may
/// be stored.
pub struct AnyStore;

impl RwLockPredicate<TrustedStore> for AnyStore {
    open spec fn inv(self, v: TrustedStore) -> bool {
        true
    }
}

/// Relies on `Arc::clone`: the returned handle refers to the same value.
#[verifier::external_body]
fn arc_clone<T>(arc: &Arc<T>) -> (r: Arc<T>)
    ensures
        r == *arc,
{
    Arc::clone(arc)
}

/// A read-only handle onto a shared trusted store.
pub struct TSReader {
    ts: Arc<RwLock<TrustedStore, AnyStore>>,
}

impl TSReader {
    /// Read a copy of the trusted state anchored at `height`, if any, from
    /// the store as it stands at the moment of the read.
    pub fn get(&self, height: Height) -> Option<TrustedState> {
        let handle = self.ts.acquire_read();
        let r = match handle.borrow().get(height) {
            Some(ts) => Some(ts.clone()),
            None => None,
        };
        handle.release_read();
        r
    }
}

/// A read-write handle onto a shared trusted store.
pub struct TSReadWriter {
    ts: Arc<RwLock<TrustedStore, AnyStore>>,
}

impl TSReadWriter {
    /// Take exclusive ownership of `store` and expose it through a
    /// read-write handle.
    pub fn new(store: TrustedStore) -> (r: TSReadWriter) {
        let lock = RwLock::new(store, Ghost(AnyStore));
        TSReadWriter { ts: Arc::new(lock) }
    }

    /// Derive a read-only handle sharing this handle's store.
    pub fn reader(&self) -> (r: TSReader) {
        TSReader { ts: arc_clone(&self.ts) }
    }

    /// Read a copy of the trusted state anchored at `height`, if any, from
    /// the store as it stands at the moment of the read.
    pub fn get(&self, height: Height) -> Option<TrustedState> {
        let handle = self.ts.acquire_read();
        let r = match handle.borrow().get(height) {
            Some(ts) => Some(ts.clone()),
            None => None,
        };
        handle.release_read();
        r
    }

    /// Anchor `trusted_state` at `height`, excluding all readers and
    /// writers for the duration of the write.
    pub fn set(&self, height: Height, trusted_state: TrustedState) {
        let (mut store, handle) = self.ts.acquire_write();
        store.set(height, trusted_state);
        handle.release_write(store);
    }
}

} // verus!
