//! Scoped providers: stored factories that build a new value on each request.
use crate::container::Container;
use crate::erased::ErasedBox;
use crate::provider::write_text;
use std::sync::Arc;
use vstd::prelude::*;

verus! {

/// A stored factory without arguments.
///
/// Held opaque: Verus does not take a `dyn` type with more than one trait.
#[verifier::external_body]
pub struct FactoryFn {
    f: Arc<dyn Fn() -> ErasedBox + Send + Sync>,
}

impl FactoryFn {
    /// Relies on `Arc::new` and the coercion to `dyn Fn`: stores `f`, erasing
    /// what it returns.
    #[verifier::external_body]
    pub fn new<T, F>(f: F) -> (r: FactoryFn)
        where
            T: Send + Sync + 'static,
            F: Fn() -> T + Send + Sync + 'static,
        requires
            f.requires(()),
    {
        FactoryFn { f: Arc::new(move || ErasedBox::new(f())) }
    }

    /// Relies on calling the stored `dyn Fn`: a new value.
    #[verifier::external_body]
    pub fn call(&self) -> (r: ErasedBox) {
        (self.f)()
    }

    /// Relies on `Arc::clone`: another handle to the same factory.
    #[verifier::external_body]
    pub fn share(&self) -> (r: FactoryFn) {
        FactoryFn { f: Arc::clone(&self.f) }
    }
}

impl Clone for FactoryFn {
    fn clone(&self) -> (r: FactoryFn) {
        self.share()
    }
}

/// A stored factory that takes the container, to resolve what it needs.
///
/// Held opaque for the same reason as [`FactoryFn`].
#[verifier::external_body]
pub struct ConstructFn {
    f: Arc<dyn Fn(&Container) -> ErasedBox + Send + Sync>,
}

impl ConstructFn {
    /// Relies on `Arc::new` and the coercion to `dyn Fn`: stores `f`, erasing
    /// what it returns.
    #[verifier::external_body]
    pub fn new<T, F>(f: F) -> (r: ConstructFn)
        where
            T: Send + Sync + 'static,
            F: Fn(&Container) -> T + Send + Sync + 'static,
        requires
            forall|c: &Container| f.requires((c,)),
    {
        ConstructFn { f: Arc::new(move |c: &Container| ErasedBox::new(f(c))) }
    }

    /// Relies on calling the stored `dyn Fn` with the container: a new value.
    #[verifier::external_body]
    pub fn call(&self, container: &Container) -> (r: ErasedBox) {
        (self.f)(container)
    }

    /// Relies on `Arc::clone`: another handle to the same factory.
    #[verifier::external_body]
    pub fn share(&self) -> (r: ConstructFn) {
        ConstructFn { f: Arc::clone(&self.f) }
    }
}

impl Clone for ConstructFn {
    fn clone(&self) -> (r: ConstructFn) {
        self.share()
    }
}

/// A provider that returns a new value each time it is asked.
#[derive(Clone)]
pub enum Scoped {
    /// Built by a factory without arguments.
    Factory(FactoryFn),
    /// Built by a factory that receives the container.
    Construct(ConstructFn),
}

impl Scoped {
    /// Creates a scoped provider from a factory function.
    pub fn from_factory<T, F>(f: F) -> (r: Scoped)
        where
            T: Send + Sync + 'static,
            F: Fn() -> T + Send + Sync + 'static,
        requires
            f.requires(()),
        ensures
            r is Factory,
    {
        Scoped::Factory(FactoryFn::new(f))
    }

    /// Creates a scoped provider from a function that receives the container.
    pub fn from_construct<T, F>(f: F) -> (r: Scoped)
        where
            T: Send + Sync + 'static,
            F: Fn(&Container) -> T + Send + Sync + 'static,
        requires
            forall|c: &Container| f.requires((c,)),
        ensures
            r is Construct,
    {
        Scoped::Construct(ConstructFn::new(f))
    }

    /// Returns `true` if this provider takes no arguments.
    pub fn is_factory(&self) -> (r: bool)
        ensures
            r == self is Factory,
    {
        matches!(self, Scoped::Factory(_))
    }

    /// Returns `true` if this provider receives the container.
    pub fn is_construct(&self) -> (r: bool)
        ensures
            r == self is Construct,
    {
        matches!(self, Scoped::Construct(_))
    }

    /// Runs the factory and casts its value to `T`; nothing if this provider
    /// needs the container, or if the value is not a `T`.
    pub fn call_factory<T: Send + Sync + 'static>(&self) -> (r: Option<T>)
        ensures
            self is Construct ==> r is None,
    {
        match self {
            Scoped::Factory(f) => f.call().downcast::<T>(),
            Scoped::Construct(_) => None,
        }
    }

    /// Runs the factory with the container and casts its value to `T`;
    /// nothing if this provider takes no arguments, or if the value is not a
    /// `T`.
    pub fn call_construct<T: Send + Sync + 'static>(&self, container: &Container) -> (r: Option<T>)
        ensures
            self is Factory ==> r is None,
    {
        match self {
            Scoped::Factory(_) => None,
            Scoped::Construct(f) => f.call(container).downcast::<T>(),
        }
    }
}

impl core::fmt::Debug for Scoped {
    fn fmt(&self, f: &mut core::fmt::Formatter<'_>) -> (r: Result<(), core::fmt::Error>) {
        match self {
            Scoped::Factory(_) => write_text(f, "Scoped::Factory(..)"),
            Scoped::Construct(_) => write_text(f, "Scoped::Construct(..)"),
        }
    }
}

} // verus!
