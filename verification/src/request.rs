//! The request: one inbound call being processed.
//!
//! The part of a request that this core is about is its extension store,
//! owned exclusively by the request for its lifetime: created empty with
//! the request, populated while middleware runs, read by downstream
//! handlers, and discarded with the request. Because each request owns its
//! store, handling one request can never touch another request's store.

use crate::store::{DynValue, Extensions};
use core::any::TypeId;
use vstd::prelude::*;

verus! {

/// One inbound call. Its view is the contents of its extension store.
pub struct Request {
    extensions: Extensions,
}

impl Request {
    /// A fresh request with an empty extension store.
    pub fn new() -> (r: Request)
        ensures
            r@ == Map::<TypeId, DynValue>::empty(),
    {
        Request { extensions: Extensions::new() }
    }

    /// Read access to the request's extension store.
    pub fn extensions(&self) -> (r: &Extensions)
        ensures
            r@ == self@,
    {
        &self.extensions
    }

    /// Write access to the request's extension store.
    pub fn extensions_mut(&mut self) -> (r: &mut Extensions)
        ensures
            (*r)@ == old(self)@,
            final(self)@ == (*final(r))@,
    {
        &mut self.extensions
    }
}

impl View for Request {
    type V = Map<TypeId, DynValue>;

    closed spec fn view(&self) -> Map<TypeId, DynValue> {
        self.extensions@
    }
}

} // verus!
