//! Types that build themselves from the values of a container.
use crate::container::Container;
use vstd::prelude::*;

verus! {

/// A type that can be constructed by getting its dependencies from a
/// [`Container`].
pub trait Inject: Sized {
    /// Constructs this type using the container.
    fn inject(container: &Container) -> Self;
}

/// A type with a default value needs nothing from the container.
impl<T: Default> Inject for T {
    #[inline]
    fn inject(container: &Container) -> (r: T) {
        T::default()
    }
}

} // verus!
