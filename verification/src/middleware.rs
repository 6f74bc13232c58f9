//! The middleware abstraction and the `AddData` middleware.
//!
//! A middleware is a pure, setup-time transform from one endpoint into a
//! new endpoint that wraps it. `AddData` is the one concrete middleware of
//! this core: its wrapping endpoint installs a configured value into each
//! request's extension store, under the identity of the value's type, and
//! then delegates to the wrapped endpoint, returning its result untouched.
//!
//! Per request the configured value is duplicated as a cheap shared
//! handle, never re-made: each request gets its own slot entry, while the
//! underlying data may be shared — whether that sharing is safe is the
//! value type's own contract, which the `Clone + Send + Sync + 'static`
//! bound states.

use crate::endpoint::{Endpoint, Error};
use crate::request::Request;
use crate::store::{erase, type_key, DynValue};
use core::any::TypeId;
use vstd::prelude::*;

verus! {

/// A setup-time transform from one endpoint into another, enabling a chain
/// of wrapping endpoints to be built before a server accepts requests.
///
/// The transform is pure: the produced endpoint is a function of the
/// middleware and the endpoint it wraps, and building it has no other
/// effect.
pub trait Middleware<E: Endpoint>: Sized {
    /// The kind of endpoint this middleware produces.
    type Output: Endpoint;

    /// The endpoint that `transform` produces.
    spec fn transform_spec(&self, ep: E) -> Self::Output;

    /// Wrap `ep`, producing the new endpoint.
    fn transform(&self, ep: E) -> (r: Self::Output)
        ensures
            r == self.transform_spec(ep),
    ;
}

/// Middleware that makes one caller-supplied value available to every
/// request handler below it.
///
/// It holds the configured value together with its erased form and the key
/// naming its type; all three are fixed at construction and immutable
/// thereafter.
pub struct AddData<T> {
    value: T,
    key: TypeId,
    erased: DynValue,
}

impl<T: Clone + Send + Sync + 'static> AddData<T> {
    /// Create new `AddData` middleware with any value that can be
    /// duplicated and shared across concurrent request handlings. It
    /// cannot fail.
    pub fn new(value: T) -> (r: AddData<T>)
        ensures
            r.spec_value() == value,
    {
        let erased = erase(value.clone());
        AddData { value, key: type_key::<T>(), erased }
    }
}

impl<T> AddData<T> {
    /// The configured value.
    pub closed spec fn spec_value(&self) -> T {
        self.value
    }

    /// The key under which the value is installed: the identity of `T`.
    pub closed spec fn spec_key(&self) -> TypeId {
        self.key
    }

    /// The erased handle to the configured value.
    pub closed spec fn spec_erased(&self) -> DynValue {
        self.erased
    }
}

impl<E: Endpoint, T: Clone + Send + Sync + 'static> Middleware<E> for AddData<T> {
    type Output = AddDataEndpoint<E>;

    /// The wrapping endpoint: the wrapped endpoint under this middleware's
    /// key and erased value.
    closed spec fn transform_spec(&self, ep: E) -> AddDataEndpoint<E> {
        AddDataEndpoint { inner: ep, key: self.spec_key(), value: self.spec_erased() }
    }

    fn transform(&self, ep: E) -> (r: AddDataEndpoint<E>)
        ensures
            r.spec_inner() == ep,
            r.spec_key() == self.spec_key(),
            r.spec_value() == self.spec_erased(),
    {
        AddDataEndpoint { inner: ep, key: self.key, value: self.erased.dup() }
    }
}

/// The wrapping endpoint produced by `AddData`: it owns the wrapped
/// endpoint and a duplicate of the configured value, is created once at
/// setup time, and is reused unchanged across all subsequent requests.
pub struct AddDataEndpoint<E> {
    inner: E,
    key: TypeId,
    value: DynValue,
}

impl<E: Endpoint> AddDataEndpoint<E> {
    /// The wrapped endpoint.
    pub closed spec fn spec_inner(&self) -> E {
        self.inner
    }

    /// The key of the slot this layer writes.
    pub closed spec fn spec_key(&self) -> TypeId {
        self.key
    }

    /// The erased value this layer installs into each request.
    pub closed spec fn spec_value(&self) -> DynValue {
        self.value
    }

    /// The store contents this layer delivers to the wrapped endpoint for
    /// a request that arrived with contents `ext`: the arrived contents
    /// with the configured value installed under the configured key.
    pub open spec fn delivered(&self, ext: Map<TypeId, DynValue>) -> Map<TypeId, DynValue> {
        ext.insert(self.spec_key(), self.spec_value())
    }
}

impl<E: Endpoint> Endpoint for AddDataEndpoint<E> {
    type Output = E::Output;

    /// Pass-through: the outcomes of this layer are exactly the outcomes
    /// of the wrapped endpoint on the delivered store — no error is
    /// caught, wrapped or translated, and no success value is altered.
    open spec fn may_return(
        &self,
        ext: Map<TypeId, DynValue>,
        out: Result<E::Output, Error>,
    ) -> bool {
        self.spec_inner().may_return(self.delivered(ext), out)
    }

    fn call(&self, req: Request) -> (r: Result<E::Output, Error>) {
        let mut req = req;
        let value = self.value.dup();
        req.extensions_mut().insert_dyn(self.key, value);
        self.inner.call(req)
    }
}

/// Presence: whatever request a wrapped chain handles, the store delivered
/// to the wrapped endpoint holds the configured value under the configured
/// key for the whole wrapped call.
pub proof fn law_presence<E: Endpoint>(ep: AddDataEndpoint<E>, ext: Map<TypeId, DynValue>)
    ensures
        ep.delivered(ext).contains_key(ep.spec_key()),
        ep.delivered(ext)[ep.spec_key()] == ep.spec_value(),
{
}

/// Pass-through transparency: the outcomes the wrapping endpoint admits
/// are exactly the outcomes the wrapped endpoint admits on the delivered
/// store — every success value and every error crosses the layer
/// unchanged, in both directions.
pub proof fn law_pass_through<E: Endpoint>(
    ep: AddDataEndpoint<E>,
    ext: Map<TypeId, DynValue>,
    out: Result<E::Output, Error>,
)
    ensures
        ep.may_return(ext, out) <==> ep.spec_inner().may_return(ep.delivered(ext), out),
{
}

/// Presence, observed: a layer that installs a value, wrapped around a
/// reader of the same slot, admits exactly one outcome — success with the
/// configured value.
pub proof fn law_presence_observed(
    ep: AddDataEndpoint<crate::endpoint::ReadData>,
    ext: Map<TypeId, DynValue>,
    out: Result<Option<DynValue>, Error>,
)
    requires
        ep.spec_inner().spec_key() == ep.spec_key(),
    ensures
        ep.may_return(ext, out) <==> out == Ok::<Option<DynValue>, Error>(Some(ep.spec_value())),
{
}

/// Failure, observed: a layer wrapped around an endpoint that fails every
/// request admits exactly the wrapped endpoint's error — a failure crosses
/// the layer untouched, neither caught nor translated.
pub proof fn law_failure_observed(
    ep: AddDataEndpoint<crate::endpoint::Fail>,
    ext: Map<TypeId, DynValue>,
    out: Result<(), Error>,
)
    ensures
        ep.may_return(ext, out) <==> (out matches Err(e)
            && e.spec_code() == ep.spec_inner().spec_code()),
{
}

/// Overwrite, last-wins: when two nested layers install values under the
/// same key, the inner layer writes later, so the endpoint they wrap
/// observes the inner layer's value; the outer layer's value is
/// overwritten silently.
pub proof fn law_overwrite<E: Endpoint>(
    outer: AddDataEndpoint<AddDataEndpoint<E>>,
    ext: Map<TypeId, DynValue>,
    out: Result<E::Output, Error>,
)
    requires
        outer.spec_inner().spec_key() == outer.spec_key(),
    ensures
        outer.may_return(ext, out) <==> outer.spec_inner().spec_inner().may_return(
            ext.insert(outer.spec_key(), outer.spec_inner().spec_value()),
            out,
        ),
        outer.spec_inner().delivered(outer.delivered(ext))[outer.spec_key()]
            == outer.spec_inner().spec_value(),
{
    let key = outer.spec_key();
    assert(ext.insert(key, outer.spec_value()).insert(key, outer.spec_inner().spec_value())
        =~= ext.insert(key, outer.spec_inner().spec_value()));
}

/// Isolation across keys: installing a value under one key neither adds,
/// removes, nor changes what the delivered store holds under any other
/// key.
pub proof fn law_isolation<E: Endpoint>(
    ep: AddDataEndpoint<E>,
    ext: Map<TypeId, DynValue>,
    other: TypeId,
)
    requires
        other != ep.spec_key(),
    ensures
        ep.delivered(ext).contains_key(other) == ext.contains_key(other),
        ext.contains_key(other) ==> ep.delivered(ext)[other] == ext[other],
{
}

/// No cross-request leakage: the store delivered for a request is built
/// from that request's own contents and the endpoint's fixed configuration
/// alone. Beyond the one configured entry, a request's delivered store is
/// exactly its own store, so two requests handled through the same
/// endpoint instance never observe each other's per-request data.
pub proof fn law_no_leakage<E: Endpoint>(ep: AddDataEndpoint<E>, ext: Map<TypeId, DynValue>)
    ensures
        forall|k: TypeId| #![auto]
            k != ep.spec_key() ==> ep.delivered(ext).contains_key(k) == ext.contains_key(k) && (
            ext.contains_key(k) ==> ep.delivered(ext)[k] == ext[k]),
{
}

} // verus!
