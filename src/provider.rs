//! The stored strategy for producing the values of one key.
use crate::container::Container;
use crate::injectable::Inject;
use crate::scoped::Scoped;
use crate::shared::Shared;
use std::sync::Arc;
use vstd::prelude::*;

verus! {

#[verifier::external_type_specification]
#[verifier::external_body]
pub struct ExFormatter<'a>(core::fmt::Formatter<'a>);

#[verifier::external_type_specification]
#[verifier::external_body]
pub struct ExFmtError(core::fmt::Error);

/// Relies on `Formatter::write_str`: writes the text.
#[verifier::external_body]
pub(crate) fn write_text(f: &mut core::fmt::Formatter<'_>, text: &str) -> (r: Result<(), core::fmt::Error>) {
    f.write_str(text)
}

/// The kind of a provider.
#[derive(Debug, Clone, Copy, PartialEq, Eq, Structural, Hash, PartialOrd, Ord)]
pub enum ProviderKind {
    /// A new value on each request.
    Scoped,
    /// One value shared by every request.
    Singleton,
}

/// Provides the values of a [`Container`] slot.
pub enum Provider {
    /// Returns a new value each time it is asked.
    Scoped(Scoped),
    /// Returns the same value each time it is asked.
    Singleton(Shared),
}

impl Provider {
    /// The kind of this provider.
    pub open spec fn spec_kind(&self) -> ProviderKind {
        match self {
            Provider::Scoped(_) => ProviderKind::Scoped,
            Provider::Singleton(_) => ProviderKind::Singleton,
        }
    }

    /// Returns `true` if the provider is scoped.
    pub fn is_scoped(&self) -> (r: bool)
        ensures
            r == self is Scoped,
    {
        matches!(self, Provider::Scoped(_))
    }

    /// Returns `true` if the provider is a singleton.
    pub fn is_singleton(&self) -> (r: bool)
        ensures
            r == self is Singleton,
    {
        matches!(self, Provider::Singleton(_))
    }

    /// Returns the kind of this provider.
    pub fn kind(&self) -> (r: ProviderKind)
        ensures
            r == self.spec_kind(),
    {
        match self {
            Provider::Scoped(_) => ProviderKind::Scoped,
            Provider::Singleton(_) => ProviderKind::Singleton,
        }
    }

    /// A new value of type `T` from a scoped factory without arguments; nothing
    /// for any other provider, or if the value is not a `T`.
    #[inline]
    pub fn get_scoped<T: Send + Sync + 'static>(&self) -> (r: Option<T>)
        ensures
            !(self matches Provider::Scoped(Scoped::Factory(_))) ==> r is None,
    {
        match self {
            Provider::Scoped(f) => {
                if f.is_factory() {
                    f.call_factory::<T>()
                } else {
                    None
                }
            },
            Provider::Singleton(_) => None,
        }
    }

    /// A new value of type `T` from a scoped factory that receives the
    /// container; nothing for any other provider, or if the value is not a
    /// `T`.
    #[inline]
    pub fn get_inject<T: Inject + Send + Sync + 'static>(&self, container: &Container) -> (r: Option<T>)
        ensures
            !(self matches Provider::Scoped(Scoped::Construct(_))) ==> r is None,
    {
        match self {
            Provider::Scoped(f) => {
                if f.is_construct() {
                    f.call_construct::<T>(container)
                } else {
                    None
                }
            },
            Provider::Singleton(_) => None,
        }
    }

    /// The shared value of an eager singleton, as a `T`; nothing for any other
    /// provider, or if the value is not a `T`.
    #[inline]
    pub fn get_singleton<T: Send + Sync + 'static>(&self) -> (r: Option<Arc<T>>)
        ensures
            !(self matches Provider::Singleton(Shared::Instance(_))) ==> r is None,
    {
        match self {
            Provider::Singleton(x) => x.get::<T>(),
            Provider::Scoped(_) => None,
        }
    }

    /// The shared value of a lazy singleton, built with the container at first
    /// access, as a `T`; nothing for any other provider, or if the value is not
    /// a `T`.
    #[inline]
    pub fn get_singleton_with<T: Send + Sync + 'static>(&self, container: &Container) -> (r: Option<Arc<T>>)
        ensures
            !(self matches Provider::Singleton(Shared::Lazy(_))) ==> r is None,
    {
        match self {
            Provider::Singleton(x) => x.get_with::<T>(container),
            Provider::Scoped(_) => None,
        }
    }
}

/// A clone is an alias: it shares the factory or the value of the original.
impl Clone for Provider {
    fn clone(&self) -> (r: Provider)
        ensures
            r.spec_kind() == self.spec_kind(),
    {
        match self {
            Provider::Scoped(x) => Provider::Scoped(x.clone()),
            Provider::Singleton(x) => Provider::Singleton(x.clone()),
        }
    }
}

impl core::fmt::Debug for Provider {
    fn fmt(&self, f: &mut core::fmt::Formatter<'_>) -> (r: Result<(), core::fmt::Error>) {
        match self {
            Provider::Scoped(Scoped::Factory(_)) => write_text(f, "Provider::Scoped(Scoped::Factory(..))"),
            Provider::Scoped(Scoped::Construct(_)) => write_text(f, "Provider::Scoped(Scoped::Construct(..))"),
            Provider::Singleton(_) => write_text(f, "Provider::Singleton(..)"),
        }
    }
}

} // verus!
