//! The address of a registry slot: a type descriptor and an optional name.
use std::any::TypeId;
use vstd::prelude::*;

verus! {

/// The mathematical value of a key: its descriptor and the characters of its
/// name, if any.
pub type KeyView = (TypeId, Option<Seq<char>>);

/// The view of an optional name.
pub open spec fn name_view(name: Option<&str>) -> Option<Seq<char>> {
    match name {
        Some(s) => Some(s@),
        None => None,
    }
}

/// An unique key for a value provider.
#[derive(Debug, Hash)]
pub struct InjectionKey {
    type_id: TypeId,
    name: Option<String>,
}

impl View for InjectionKey {
    type V = KeyView;

    closed spec fn view(&self) -> KeyView {
        (self.type_id, match self.name {
            Some(s) => Some(s@),
            None => None,
        })
    }
}

fn str_eq(a: &str, b: &str) -> (r: bool)
    ensures
        r == (a@ == b@),
{
    let n = a.unicode_len();
    if n != b.unicode_len() {
        return false;
    }
    let mut i: usize = 0;
    while i < n
        invariant
            n == a@.len(),
            n == b@.len(),
            0 <= i <= n,
            forall|j: int| 0 <= j < i ==> a@[j] == b@[j],
        decreases n - i,
    {
        if a.get_char(i) != b.get_char(i) {
            return false;
        }
        i = i + 1;
    }
    proof {
        assert(a@ =~= b@);
    }
    true
}

impl InjectionKey {
    /// Constructs a key from a type descriptor and an optional name.
    pub fn new(type_id: TypeId, name: Option<&str>) -> (r: InjectionKey)
        ensures
            r@ == (type_id, name_view(name)),
    {
        let name = match name {
            Some(s) => Some(s.to_string()),
            None => None,
        };
        InjectionKey { type_id, name }
    }

    /// Constructs the unnamed key of the type `T`.
    pub fn of<T: ?Sized + 'static>() -> (r: InjectionKey)
        ensures
            r@.1 == None::<Seq<char>>,
    {
        Self::new(TypeId::of::<T>(), None)
    }

    /// Constructs the key of the type `T` with the given name.
    pub fn with_name<T: ?Sized + 'static>(name: &str) -> (r: InjectionKey)
        ensures
            r@.1 == Some(name@),
    {
        Self::new(TypeId::of::<T>(), Some(name))
    }

    /// Returns the descriptor of the type this key provides.
    pub fn type_id(&self) -> (r: TypeId)
        ensures
            r == self@.0,
    {
        self.type_id
    }

    /// Returns the name of this key, or `None`.
    pub fn name(&self) -> (r: Option<&str>)
        ensures
            name_view(r) == self@.1,
    {
        match &self.name {
            Some(s) => Some(s.as_str()),
            None => None,
        }
    }

    /// Returns `true` when both keys address the same slot.
    pub fn same_as(&self, other: &InjectionKey) -> (r: bool)
        ensures
            r == (self@ == other@),
    {
        if self.type_id != other.type_id {
            return false;
        }
        match (&self.name, &other.name) {
            (Some(a), Some(b)) => str_eq(a.as_str(), b.as_str()),
            (None, None) => true,
            _ => false,
        }
    }
}

impl Clone for InjectionKey {
    fn clone(&self) -> (r: InjectionKey)
        ensures
            r@ == self@,
    {
        let name = match &self.name {
            Some(s) => Some(s.clone()),
            None => None,
        };
        InjectionKey { type_id: self.type_id, name }
    }
}

/// Two keys are equal when they address the same slot.
impl PartialEq for InjectionKey {
    fn eq(&self, other: &InjectionKey) -> (r: bool) {
        self.same_as(other)
    }
}

impl vstd::std_specs::cmp::PartialEqSpecImpl for InjectionKey {
    open spec fn obeys_eq_spec() -> bool {
        true
    }

    open spec fn eq_spec(&self, other: &InjectionKey) -> bool {
        self@ == other@
    }
}

impl Eq for InjectionKey {
}

} // verus!
