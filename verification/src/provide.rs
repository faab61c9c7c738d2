//! The capability-provider abstraction: a consumer asks for a handle by
//! capability type alone, without naming the registry's accessors.

use vstd::prelude::*;

use crate::registry::Handle;

verus! {

/// Types implementing this trait indicate that they provide a shared
/// singleton client instance of capability type `T`.
///
/// An implementation is one short piece of glue per client kind, written
/// where the consumer context is defined: it reaches that context's registry
/// and routes the request to the matching accessor. Because the registry
/// caches every instance, repeated calls on one context serve handles of
/// one identity.
pub trait ProvidesClient<T> {
    /// Returns a shared handle to the singleton client instance of type `T`.
    fn provide(&self) -> Handle<T>;
}

} // verus!
