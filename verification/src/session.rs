//! Single-slot store for the pending PKCE code verifier.
//!
//! At most one authorization attempt is outstanding at a time: a new
//! `begin_session` unconditionally overwrites any prior pending verifier,
//! and `take_session` reads and clears the slot, so a verifier is never
//! handed out twice.

use vstd::prelude::*;

verus! {

/// The one piece of mutable state of the flow: the verifier of the
/// authorization attempt that is in flight, if any.
pub struct SessionStore {
    slot: Option<Vec<u8>>,
}

impl SessionStore {
    /// The pending verifier, if an authorization attempt has been
    /// initiated and not yet consumed.
    pub closed spec fn pending(&self) -> Option<Seq<u8>> {
        match self.slot {
            Some(v) => Some(v@),
            None => None,
        }
    }

    /// A fresh store with no attempt in flight.
    pub fn new() -> (r: SessionStore)
        ensures
            r.pending() is None,
    {
        SessionStore { slot: None }
    }

    /// Stores `verifier` as the pending one, discarding any prior pending
    /// verifier (the prior attempt becomes unrecoverable).
    pub fn begin_session(&mut self, verifier: Vec<u8>)
        ensures
            final(self).pending() == Some(verifier@),
    {
        self.slot = Some(verifier);
    }

    /// Atomically reads and clears the pending verifier. Returns the
    /// verifier exactly once: a second call returns `None` until a new
    /// session begins.
    pub fn take_session(&mut self) -> (r: Option<Vec<u8>>)
        ensures
            final(self).pending() is None,
            match r {
                Some(v) => old(self).pending() == Some(v@),
                None => old(self).pending() is None,
            },
    {
        self.slot.take()
    }
}

} // verus!
