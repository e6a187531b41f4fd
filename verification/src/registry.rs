//! A mutually-exclusive, identifier-keyed registry of live sessions.
//!
//! The registry is the sole owner of session state: every boundary operation
//! looks its session up here by a 128-bit identifier, and creating a session
//! under an identifier that is already live silently replaces the old entry.

use std::collections::HashMap;
use vstd::prelude::*;

verus! {

broadcast use vstd::std_specs::hash::group_hash_axioms;

/// A registry of live sessions keyed by 128-bit session identifiers.
///
/// Its view is the map from identifier to session; every operation's
/// contract is stated over that map.
pub struct SessionRegistry<S> {
    map: HashMap<u128, S>,
}

impl<S> View for SessionRegistry<S> {
    type V = Map<u128, S>;

    closed spec fn view(&self) -> Map<u128, S> {
        self.map@
    }
}

impl<S> SessionRegistry<S> {
    /// Creates an empty registry.
    pub fn new() -> (r: Self)
        ensures
            r@ == Map::<u128, S>::empty(),
    {
        SessionRegistry { map: HashMap::new() }
    }

    /// Inserts `session` under `id`, replacing any session already live
    /// under that identifier.
    pub fn create(&mut self, id: u128, session: S)
        ensures
            final(self)@ == old(self)@.insert(id, session),
    {
        self.map.insert(id, session);
    }

    /// Removes the session under `id`; absence is not an error.
    pub fn remove(&mut self, id: u128)
        ensures
            final(self)@ == old(self)@.remove(id),
    {
        self.map.remove(&id);
    }

    /// Looks up the session under `id` without mutating anything.
    pub fn get(&self, id: u128) -> (r: Option<&S>)
        ensures
            match r {
                Some(s) => self@.contains_key(id) && *s == self@[id],
                None => !self@.contains_key(id),
            },
    {
        self.map.get(&id)
    }

    /// Reports whether a session is live under `id`.
    pub fn contains(&self, id: u128) -> (r: bool)
        ensures
            r == self@.contains_key(id),
    {
        self.map.contains_key(&id)
    }
}

} // verus!
