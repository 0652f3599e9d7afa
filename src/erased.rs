//! Type erasure: values of many types behind one uniform handle, with a
//! checked cast back to a concrete type.
use std::any::Any;
use std::sync::Arc;
use vstd::prelude::*;

verus! {

/// An owned value of some type, behind a uniform handle.
///
/// Verus does not take a `dyn` type with more than one trait, so the handle is
/// held opaque and reached only through the trusted functions below.
#[verifier::external_body]
pub struct ErasedBox {
    inner: Box<dyn Any + Send + Sync>,
}

impl ErasedBox {
    /// Relies on `Box::new` and the coercion to `dyn Any`: boxes the value.
    #[verifier::external_body]
    pub fn new<T: Send + Sync + 'static>(value: T) -> (r: ErasedBox) {
        ErasedBox { inner: Box::new(value) }
    }

    /// Relies on `Box<dyn Any>::downcast`: the value, if it is a `T`, else
    /// nothing. The allocation is moved out, not copied.
    #[verifier::external_body]
    pub fn downcast<T: Send + Sync + 'static>(self) -> (r: Option<T>) {
        match self.inner.downcast::<T>() {
            Ok(b) => Some(*b),
            Err(_) => None,
        }
    }
}

/// A shared value of some type, behind a uniform reference-counted handle.
///
/// Held opaque for the same reason as [`ErasedBox`].
#[verifier::external_body]
pub struct ErasedShared {
    inner: Arc<dyn Any + Send + Sync>,
}

impl ErasedShared {
    /// Relies on `Arc::new` and the coercion to `dyn Any`: shares the value.
    #[verifier::external_body]
    pub fn new<T: Send + Sync + 'static>(value: T) -> (r: ErasedShared) {
        ErasedShared { inner: Arc::new(value) }
    }

    /// Relies on `Arc<dyn Any + Send + Sync>::downcast`: the handle, typed,
    /// if the allocation holds a `T`, else nothing.
    #[verifier::external_body]
    fn into_downcast<T: Send + Sync + 'static>(self) -> (r: Option<Arc<T>>) {
        self.inner.downcast::<T>().ok()
    }

    /// A new handle to the same allocation, if it holds a `T`, else nothing.
    pub fn downcast<T: Send + Sync + 'static>(&self) -> (r: Option<Arc<T>>) {
        self.share().into_downcast::<T>()
    }

    /// Relies on `Arc::clone`: another handle to the same allocation.
    #[verifier::external_body]
    pub fn share(&self) -> (r: ErasedShared) {
        ErasedShared { inner: Arc::clone(&self.inner) }
    }
}

impl Clone for ErasedShared {
    fn clone(&self) -> (r: ErasedShared) {
        self.share()
    }
}

} // verus!
