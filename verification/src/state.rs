//! The two-tier typed state store: one store local to the request being
//! handled, and one shared, read-only snapshot of the process-wide state
//! populated at startup.

use vstd::prelude::*;

use std::sync::Arc;

use crate::typemap::TypeMap;

verus! {

/// Request-local state in front of the process-shared state.
pub struct State<V> {
    request: TypeMap<V>,
    shared: Arc<TypeMap<V>>,
}

impl<V> State<V> {
    /// The request-local bindings.
    pub closed spec fn request_map(&self) -> Map<u64, V> {
        self.request@
    }

    /// The process-shared bindings.
    pub closed spec fn shared_map(&self) -> Map<u64, V> {
        self.shared@
    }

    /// A fresh request-local store in front of the given shared state.
    pub fn new(shared: Arc<TypeMap<V>>) -> (r: Self)
        ensures
            r.request_map() == Map::<u64, V>::empty(),
            r.shared_map() == shared@,
    {
        State { request: TypeMap::new(), shared }
    }

    /// Puts a value into the request state, overwriting any prior value of
    /// the same token; the shared state is never written through here.
    pub fn put(&mut self, token: u64, value: V)
        ensures
            final(self).request_map() == old(self).request_map().insert(token, value),
            final(self).shared_map() == old(self).shared_map(),
    {
        let _prior = self.request.put(token, value);
    }

    /// Gets a value from the request state; asking for an absent token is a
    /// caller error, ruled out by the precondition.
    pub fn get(&self, token: u64) -> (r: &V)
        requires
            self.request_map().contains_key(token),
        ensures
            self.request_map()[token] == *r,
    {
        self.request.get(token)
    }

    /// Gets a value from the request state.
    pub fn try_get(&self, token: u64) -> (r: Option<&V>)
        ensures
            match r {
                Some(v) => self.request_map().contains_key(token) && self.request_map()[token]
                    == *v,
                None => !self.request_map().contains_key(token),
            },
    {
        self.request.try_get(token)
    }

    /// A reference to the shared state.
    pub fn shared(&self) -> (r: &TypeMap<V>)
        ensures
            r@ == self.shared_map(),
    {
        &self.shared
    }
}

impl<V> Default for State<V> {
    /// A state with nothing in either tier.
    fn default() -> (r: Self)
        ensures
            r.request_map() == Map::<u64, V>::empty(),
            r.shared_map() == Map::<u64, V>::empty(),
    {
        State { request: TypeMap::new(), shared: Arc::new(TypeMap::new()) }
    }
}

} // verus!
