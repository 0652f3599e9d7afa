//! Singleton providers: one value, built eagerly or at first use, shared by
//! every request.
use crate::container::Container;
use crate::erased::ErasedShared;
use crate::late_init::{Constructor, LateInit};
use std::sync::Arc;
use vstd::prelude::*;

verus! {

/// The stored constructor of a lazy singleton.
///
/// Held opaque: Verus does not take a `dyn` type with more than one trait.
#[verifier::external_body]
pub struct LazyFn {
    f: Box<dyn FnOnce(&Container) -> ErasedShared + Send + Sync>,
}

impl LazyFn {
    /// Relies on `Box::new` and the coercion to `dyn FnOnce`: stores `f`,
    /// sharing what it returns.
    #[verifier::external_body]
    pub fn new<T, F>(f: F) -> (r: LazyFn)
        where
            T: Send + Sync + 'static,
            F: FnOnce(&Container) -> T + Send + Sync + 'static,
        requires
            forall|c: &Container| f.requires((c,)),
    {
        LazyFn { f: Box::new(move |c: &Container| ErasedShared::new(f(c))) }
    }

    /// Relies on calling the stored `dyn FnOnce` with the container.
    #[verifier::external_body]
    pub fn call(self, container: &Container) -> (r: ErasedShared) {
        (self.f)(container)
    }
}

impl<'c> Constructor<&'c Container, ErasedShared> for LazyFn {
    fn construct(self, arg: &'c Container) -> (r: ErasedShared) {
        self.call(arg)
    }
}

/// A provider of one shared value.
#[derive(Clone)]
pub enum Shared {
    /// A value built at registration.
    Instance(ErasedShared),
    /// A value built at first access, by a constructor that receives the
    /// container.
    Lazy(Arc<LateInit<ErasedShared, LazyFn>>),
}

impl Shared {
    /// Provides an already built value.
    pub fn new<T: Send + Sync + 'static>(value: T) -> (r: Shared)
        ensures
            r is Instance,
    {
        Shared::Instance(ErasedShared::new(value))
    }

    /// Provides a value that `f` builds at first access.
    pub fn new_lazy<T, F>(f: F) -> (r: Shared)
        where
            T: Send + Sync + 'static,
            F: FnOnce(&Container) -> T + Send + Sync + 'static,
        requires
            forall|c: &Container| f.requires((c,)),
        ensures
            r is Lazy,
    {
        let lazy = LateInit::new(LazyFn::new(f));
        Shared::Lazy(Arc::new(lazy))
    }

    /// The value of an eager singleton, cast to `T`; nothing for a lazy one,
    /// or if the value is not a `T`.
    pub fn get<T: Send + Sync + 'static>(&self) -> (r: Option<Arc<T>>)
        ensures
            self is Lazy ==> r is None,
    {
        match self {
            Shared::Instance(x) => x.downcast::<T>(),
            Shared::Lazy(_) => None,
        }
    }

    /// The value of a lazy singleton, built with the container if this is
    /// the first access, cast to `T`; nothing for an eager one, if the value
    /// is not a `T`, or if the lazy cell is poisoned (see
    /// [`LateInit::get_or_init`]).
    pub fn get_with<T: Send + Sync + 'static>(&self, container: &Container) -> (r: Option<Arc<T>>)
        ensures
            self is Instance ==> r is None,
    {
        match self {
            Shared::Instance(_) => None,
            Shared::Lazy(lazy) => {
                match lazy.get() {
                    Some(x) => x.downcast::<T>(),
                    None => match lazy.get_or_init(container) {
                        Some(x) => x.downcast::<T>(),
                        None => None,
                    },
                }
            },
        }
    }
}

} // verus!
