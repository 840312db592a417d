//! The single-slot credential store, modelled in memory.
//!
//! The platform's secret facility holds at most one credential for the
//! application, keyed by a fixed service/account pair. This module gives the
//! store an explicit, injectable form whose behaviour is fully specified:
//! every read re-evaluates the expiry rule and lazily evicts a stale entry.
//! The keyring-backed form reuses the same decisions (see `keystore`).

use vstd::prelude::*;
use crate::credential::Credential;

verus! {

/// An in-memory credential store: one slot, no cache beside it.
pub struct MemStore {
    slot: Option<Credential>,
}

impl MemStore {
    /// What the store holds, for contracts.
    pub closed spec fn view(&self) -> Option<Credential> {
        self.slot
    }

    /// An empty store.
    pub fn new() -> (r: MemStore)
        ensures
            r@ is None,
    {
        MemStore { slot: None }
    }

    /// Whether the store currently holds an entry, expired or not.
    pub fn holds_entry(&self) -> (r: bool)
        ensures
            r == (self@ is Some),
    {
        self.slot.is_some()
    }

    /// Replaces the stored credential as a whole. In-memory storage cannot
    /// fail, so this always succeeds.
    pub fn set(&mut self, c: Credential) -> (r: Result<(), crate::errors::ApiError>)
        ensures
            r is Ok,
            final(self)@ == Some(c),
    {
        self.slot = Some(c);
        Ok(())
    }

    /// Removes the stored credential. Deleting from an empty store is a
    /// success, not an error: logging out twice is a no-op.
    pub fn delete(&mut self) -> (r: Result<(), crate::errors::ApiError>)
        ensures
            r is Ok,
            final(self)@ is None,
    {
        self.slot = None;
        Ok(())
    }

    /// Fetches a usable credential. The expiry rule is evaluated on every
    /// read: a stored credential whose expiry has passed is evicted and
    /// reported as absent; one still in its window is returned unchanged and
    /// left in place.
    pub fn get(&mut self, now: i64) -> (r: Option<Credential>)
        ensures
            old(self)@ is None ==> r is None && final(self)@ is None,
            (old(self)@ is Some && old(self)@->0.spec_usable_at(now)) ==> (r
                == Some(old(self)@->0) && final(self)@ == old(self)@),
            (old(self)@ is Some && !old(self)@->0.spec_usable_at(now)) ==> (r is None
                && final(self)@ is None),
    {
        match &self.slot {
            None => None,
            Some(c) => {
                if c.usable_at(now) {
                    Some(c.clone())
                } else {
                    self.slot = None;
                    None
                }
            },
        }
    }
}

} // verus!
