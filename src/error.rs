//! Runtime type descriptors.
use std::any::TypeId;
use vstd::prelude::*;

verus! {

#[verifier::external_type_specification]
#[verifier::external_body]
pub struct ExTypeId(std::any::TypeId);

/// Relies on `TypeId::of`: a descriptor of `T` for this process. Nothing is
/// assumed of its value.
pub assume_specification<T: ?Sized + 'static>[ std::any::TypeId::of::<T> ]() -> std::any::TypeId;

/// Relies on `TypeId`'s `==`: two descriptors compare equal exactly when they
/// are the same descriptor.
pub assume_specification[ <std::any::TypeId as PartialEq>::eq ](
    a: &std::any::TypeId,
    b: &std::any::TypeId,
) -> (r: bool)
    ensures
        r == (*a == *b),
;

/// Relies on `TypeId`'s `clone`: a copy of the descriptor.
pub assume_specification[ <std::any::TypeId as Clone>::clone ](
    a: &std::any::TypeId,
) -> (r: std::any::TypeId)
    ensures
        r == *a,
;

/// A type descriptor together with a readable type name.
#[derive(Debug, Clone, Copy)]
pub struct Type {
    id: TypeId,
    name: &'static str,
}

impl Type {
    /// The descriptor of `T`.
    pub closed spec fn spec_id(&self) -> TypeId {
        self.id
    }

    /// The readable name recorded with the descriptor.
    pub closed spec fn spec_name(&self) -> &'static str {
        self.name
    }

    /// Describes the type `T`, under the readable name given.
    pub fn of<T: 'static>(name: &'static str) -> (r: Type)
        ensures
            r.spec_name() == name,
    {
        let id = TypeId::of::<T>();
        Type { id, name }
    }

    /// Returns the type descriptor.
    #[inline]
    pub fn id(&self) -> (r: TypeId)
        ensures
            r == self.spec_id(),
    {
        self.id
    }

    /// Returns the readable type name.
    #[inline]
    pub fn name(&self) -> (r: &'static str)
        ensures
            r == self.spec_name(),
    {
        self.name
    }
}

/// Two `Type`s are equal when their descriptors are; the name is ignored.
impl PartialEq for Type {
    fn eq(&self, other: &Type) -> (r: bool) {
        self.id == other.id
    }
}

impl vstd::std_specs::cmp::PartialEqSpecImpl for Type {
    open spec fn obeys_eq_spec() -> bool {
        true
    }

    open spec fn eq_spec(&self, other: &Type) -> bool {
        self.spec_id() == other.spec_id()
    }
}

impl Eq for Type {
}

/// Describes a dependency that could not be found: its type and, if it was
/// requested by name, that name.
#[derive(Debug, Clone)]
pub struct MissingDependency {
    pub ty: Type,
    pub name: Option<String>,
}

} // verus!
