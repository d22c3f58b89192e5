//! A two-state value for fields of `PATCH` payloads: either a new value was
//! supplied, or the field is to be left as it is.

use sea_orm::ActiveValue;
use vstd::prelude::*;

verus! {

/// A value of the ORM's query language; only named in the bound of
/// [`ActiveValue`].
#[verifier::external_type_specification]
#[verifier::external_body]
pub struct ExOrmValue(sea_orm::Value);

/// The ORM's update value: `Set` is written, `Unchanged` is kept, `NotSet`
/// is left out of the statement. Its variants are read from sea_orm's own
/// definition of `ActiveValue`.
#[verifier::external_type_specification]
#[verifier::reject_recursive_types(V)]
pub struct ExActiveValue<V: Into<sea_orm::Value>>(ActiveValue<V>);

/// Can be used as a parameter in `PATCH` endpoints to distinguish between
/// values that should be updated and those that should remain unchanged.
#[derive(Debug, Clone, Copy, PartialEq, Eq)]
pub enum PatchValue<T> {
    /// Update the value to the contained `T`.
    Changed(T),
    /// Don't change the value.
    Unchanged,
}

impl<T> Default for PatchValue<T> {
    /// A field that was not supplied leaves the value unchanged.
    fn default() -> (r: Self)
        ensures
            r is Unchanged,
    {
        PatchValue::Unchanged
    }
}

impl<T> PatchValue<T> {
    /// The value that is in force after the patch: the new one if there is
    /// one, else `old`.
    pub open spec fn spec_new(self, old: T) -> T {
        match self {
            PatchValue::Changed(x) => x,
            PatchValue::Unchanged => old,
        }
    }

    /// Return the new value if this is [`Changed(T)`](Self::Changed) or the old
    /// value if [`Unchanged`](Self::Unchanged).
    pub fn get_new<'a>(&'a self, old: &'a T) -> (r: &'a T)
        ensures
            *r == self.spec_new(*old),
    {
        match self {
            PatchValue::Changed(x) => x,
            PatchValue::Unchanged => old,
        }
    }

    /// Convert a [`PatchValue<T>`] to a [`PatchValue<U>`] by applying `f` to
    /// the new value, if there is one.
    pub fn map<U>(self, f: impl FnOnce(T) -> U) -> (r: PatchValue<U>)
        requires
            self matches PatchValue::Changed(x) ==> f.requires((x,)),
        ensures
            self is Unchanged ==> r is Unchanged,
            self matches PatchValue::Changed(x) ==> (r matches PatchValue::Changed(y) && f.ensures((x,), y)),
    {
        match self {
            PatchValue::Changed(x) => PatchValue::Changed(f(x)),
            PatchValue::Unchanged => PatchValue::Unchanged,
        }
    }
}

impl<T> PatchValue<T> {
    /// A value decoded from an optional field: present and not null gives
    /// [`Changed`](Self::Changed), absent or null gives
    /// [`Unchanged`](Self::Unchanged).
    pub fn from_option(value: Option<T>) -> (r: Self)
        ensures
            value is None ==> r is Unchanged,
            value matches Some(x) ==> r == PatchValue::Changed(x),
    {
        match value {
            Some(x) => PatchValue::Changed(x),
            None => PatchValue::Unchanged,
        }
    }

    /// The value as it is encoded: the new value, or nothing (null).
    pub fn as_option(&self) -> (r: Option<&T>)
        ensures
            self is Unchanged ==> r is None,
            self matches PatchValue::Changed(x) ==> r == Some(x),
    {
        match self {
            PatchValue::Changed(x) => Some(x),
            PatchValue::Unchanged => None,
        }
    }

    /// Convert this value to an [`ActiveValue`] that can be used to construct
    /// an `ActiveModel`: the new value is set, else `old` stays unchanged.
    pub fn update(self, old: T) -> (r: ActiveValue<T>)
        where
            T: Into<sea_orm::Value>,
        ensures
            self matches PatchValue::Changed(x) ==> r == ActiveValue::Set(x),
            self is Unchanged ==> r == ActiveValue::Unchanged(old),
    {
        match self {
            PatchValue::Changed(x) => ActiveValue::Set(x),
            PatchValue::Unchanged => ActiveValue::Unchanged(old),
        }
    }
}

} // verus!
