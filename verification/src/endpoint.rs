//! The endpoint abstraction: a handler that consumes a request and
//! produces a result, together with a few terminal endpoints.
//!
//! An endpoint's contract is relational: its `may_return` spec says which
//! outcomes it admits for a request whose extension store has the given
//! contents, and `call` promises that whatever it returns is one of them.
//! Wrapping endpoints define their `may_return` in terms of the endpoint
//! they wrap, so a chain's behaviour unfolds layer by layer.

use crate::request::Request;
use crate::store::{type_key, DynValue};
use core::any::TypeId;
use core::marker::PhantomData;
use vstd::prelude::*;

verus! {

/// The failure signal an endpoint may produce in place of its output.
///
/// This core defines no failure modes of its own: an error is created by
/// some endpoint and travels outward through every wrapping layer
/// unchanged.
#[derive(Clone, Copy, Debug, PartialEq, Eq, Structural)]
pub struct Error {
    code: u16,
}

impl Error {
    /// An error carrying the given code.
    pub fn new(code: u16) -> (r: Error)
        ensures
            r.spec_code() == code,
    {
        Error { code }
    }

    /// The code this error carries.
    pub fn code(&self) -> (r: u16)
        ensures
            r == self.spec_code(),
    {
        self.code
    }

    /// The code this error carries.
    pub closed spec fn spec_code(&self) -> u16 {
        self.code
    }
}

/// A unit able to consume a request and produce a result: the thing a
/// middleware wraps.
///
/// `call` may read and mutate the request it was handed — installing data
/// in the request's extension store before delegating inward is exactly
/// what the wrapping endpoint of a middleware does — but it takes the
/// endpoint itself immutably, so handling a request never changes the
/// endpoint, and concurrent requests share nothing through it.
pub trait Endpoint: Sized {
    /// The success value this endpoint produces; no shape is imposed on it.
    type Output;

    /// Which outcomes this endpoint admits on a request whose extension
    /// store holds `ext`.
    spec fn may_return(&self, ext: Map<TypeId, DynValue>, out: Result<Self::Output, Error>) -> bool;

    /// Handle one request: produce an admitted outcome for it.
    fn call(&self, req: Request) -> (r: Result<Self::Output, Error>)
        ensures
            self.may_return(req@, r),
    ;
}

/// A terminal endpoint that reports the erased value stored under a fixed
/// key, or the absence signal when the key has no entry. It admits exactly
/// one outcome per store, so what a chain above it delivers can be read
/// off its result.
pub struct ReadData {
    key: TypeId,
}

impl ReadData {
    /// A reader of the slot keyed by the type `T`.
    pub fn of<T: Send + Sync + 'static>() -> ReadData {
        ReadData { key: type_key::<T>() }
    }

    /// The key whose slot this endpoint reports.
    pub closed spec fn spec_key(&self) -> TypeId {
        self.key
    }
}

impl Endpoint for ReadData {
    type Output = Option<DynValue>;

    /// Exactly one outcome: success with the slot's contents.
    open spec fn may_return(
        &self,
        ext: Map<TypeId, DynValue>,
        out: Result<Option<DynValue>, Error>,
    ) -> bool {
        out == Ok::<Option<DynValue>, Error>(
            if ext.contains_key(self.spec_key()) {
                Some(ext[self.spec_key()])
            } else {
                None
            },
        )
    }

    fn call(&self, req: Request) -> (r: Result<Option<DynValue>, Error>) {
        match req.extensions().get_dyn(&self.key) {
            Some(value) => Ok(Some(value.dup())),
            None => Ok(None),
        }
    }
}

/// A terminal endpoint that hands back a copy of the stored value of type
/// `T`, or the absence signal when no value of that type is present. It
/// plays the part of a downstream handler querying the store
/// optimistically: it cannot fail.
pub struct DataProbe<T> {
    marker: PhantomData<T>,
}

impl<T> DataProbe<T> {
    /// A probe for the stored value of type `T`.
    pub fn new() -> DataProbe<T> {
        DataProbe { marker: PhantomData }
    }
}

impl<T: Clone + Send + Sync + 'static> Endpoint for DataProbe<T> {
    type Output = Option<T>;

    /// The probe always succeeds. Which value it reports goes through the
    /// trusted typed lookup, so only success is promised here; the typed
    /// behaviour is exercised by run-time tests.
    open spec fn may_return(
        &self,
        ext: Map<TypeId, DynValue>,
        out: Result<Option<T>, Error>,
    ) -> bool {
        out is Ok
    }

    fn call(&self, req: Request) -> (r: Result<Option<T>, Error>) {
        match req.extensions().get::<T>() {
            Some(value) => Ok(Some(value.clone())),
            None => Ok(None),
        }
    }
}

/// A terminal endpoint that always fails with a fixed error: the probe for
/// how wrapping layers treat a failure.
pub struct Fail {
    code: u16,
}

impl Fail {
    /// An endpoint that fails every request with the given code.
    pub fn new(code: u16) -> (r: Fail)
        ensures
            r.spec_code() == code,
    {
        Fail { code }
    }

    /// The code this endpoint fails with.
    pub closed spec fn spec_code(&self) -> u16 {
        self.code
    }
}

impl Endpoint for Fail {
    type Output = ();

    /// Exactly one outcome: the fixed error, whatever the store holds.
    open spec fn may_return(&self, ext: Map<TypeId, DynValue>, out: Result<(), Error>) -> bool {
        out matches Err(e) && e.spec_code() == self.spec_code()
    }

    fn call(&self, req: Request) -> (r: Result<(), Error>) {
        Err(Error::new(self.code))
    }
}

} // verus!
