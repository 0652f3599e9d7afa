//! The outcome of a lookup: a value of its own or a handle to a shared one.
use std::sync::Arc;
use vstd::prelude::*;

verus! {

/// Relies on `Arc::get_mut`: a mutable reference to the value when no other
/// handle to it exists, else nothing.
#[verifier::external_body]
fn arc_get_mut<T>(handle: &mut Arc<T>) -> (r: Option<&mut T>)
    ensures
        r matches Some(p) ==> *p == **old(handle),
{
    Arc::get_mut(handle)
}

/// A value from a [`Container`](crate::Container).
#[derive(Clone, Debug)]
pub enum Resolved<T> {
    /// An owned value.
    Scoped(T),
    /// A shared value.
    Singleton(Arc<T>),
}

impl<T> Resolved<T> {
    /// The value held, whether owned or shared.
    pub open spec fn value(&self) -> T {
        match self {
            Resolved::Scoped(v) => *v,
            Resolved::Singleton(v) => **v,
        }
    }

    /// Returns `true` if the value is a singleton.
    pub fn is_singleton(&self) -> (r: bool)
        ensures
            r == self is Singleton,
    {
        matches!(self, Resolved::Singleton(_))
    }

    /// Returns `true` if the value is scoped.
    pub fn is_scoped(&self) -> (r: bool)
        ensures
            r == self is Scoped,
    {
        matches!(self, Resolved::Scoped(_))
    }

    /// Returns a mutable reference to the value: always for a scoped value;
    /// for a singleton only if this is the only handle to it.
    pub fn get_mut(&mut self) -> (r: Option<&mut T>)
        ensures
            (*old(self)) is Scoped ==> r is Some,
            r matches Some(p) ==> *p == old(self).value(),
    {
        match self {
            Resolved::Scoped(v) => Some(v),
            Resolved::Singleton(v) => arc_get_mut(v),
        }
    }

    /// Returns the shared handle, if the value is a singleton.
    pub fn into_singleton(self) -> (r: Option<Arc<T>>)
        ensures
            r == (match self {
                Resolved::Singleton(t) => Some(t),
                Resolved::Scoped(_) => None,
            }),
    {
        match self {
            Resolved::Singleton(t) => Some(t),
            Resolved::Scoped(_) => None,
        }
    }

    /// Returns the owned value, if the value is scoped.
    pub fn into_scoped(self) -> (r: Option<T>)
        ensures
            r == (match self {
                Resolved::Scoped(t) => Some(t),
                Resolved::Singleton(_) => None,
            }),
    {
        match self {
            Resolved::Scoped(t) => Some(t),
            Resolved::Singleton(_) => None,
        }
    }

    /// A reference to the value held.
    pub fn as_value(&self) -> (r: &T)
        ensures
            *r == self.value(),
    {
        match self {
            Resolved::Scoped(t) => t,
            Resolved::Singleton(t) => &**t,
        }
    }
}

impl<T: Clone> Resolved<T> {
    /// Returns a copy of the value.
    pub fn cloned(&self) -> (r: T)
        ensures
            cloned(self.value(), r),
    {
        match self {
            Resolved::Scoped(v) => v.clone(),
            Resolved::Singleton(v) => {
                let inner: &T = &**v;
                inner.clone()
            },
        }
    }
}

impl<T> core::ops::Deref for Resolved<T> {
    type Target = T;

    fn deref(&self) -> (r: &T)
        ensures
            *r == self.value(),
    {
        self.as_value()
    }
}

impl<T> AsRef<T> for Resolved<T> {
    fn as_ref(&self) -> (r: &T)
        ensures
            *r == self.value(),
    {
        self.as_value()
    }
}

} // verus!
