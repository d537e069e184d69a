//! The wrapper type.

use core::marker::PhantomData;
use core::ops::{Deref, DerefMut};
use vstd::prelude::*;
use vstd::std_specs::convert::FromSpecImpl;

verus! {

/// Marks a field whose value is constructed from expanded text by text parsing.
///
/// This is the default.
#[derive(Clone, Copy, Debug, PartialEq, Eq, PartialOrd, Ord, Hash)]
pub struct UseFromStr;

/// Marks a field whose value is constructed from expanded text by the
/// structured construction of its type, given the text as a string value.
#[derive(Clone, Copy, Debug, PartialEq, Eq, PartialOrd, Ord, Hash)]
pub struct UseDeserialize;

/// A field that is decoded either from a value of its own type or from text
/// in which references to variables are expanded first.
///
/// The wrapper adds nothing to the value it holds: its model is the model of
/// the value.
#[derive(Debug, Ord)]
pub struct EnvField<T, Variant = UseFromStr>(pub T, pub PhantomData<Variant>);

impl<T: DeepView, V> DeepView for EnvField<T, V> {
    type V = T::V;

    open spec fn deep_view(&self) -> T::V {
        self.0.deep_view()
    }
}

impl<T: Clone, V> Clone for EnvField<T, V> {
    fn clone(&self) -> (copy: Self)
        ensures
            call_ensures(T::clone, (&self.0,), copy.0),
    {
        EnvField(self.0.clone(), PhantomData)
    }
}

impl<T: Copy, V> Copy for EnvField<T, V> {

}

impl<T, V> EnvField<T, V> {
    /// Unwraps the value, consuming the field.
    pub fn into_inner(self) -> (inner: T)
        ensures
            inner == self.0,
    {
        self.0
    }
}

impl<T, V> FromSpecImpl<T> for EnvField<T, V> {
    open spec fn obeys_from_spec() -> bool {
        true
    }

    open spec fn from_spec(value: T) -> Self {
        EnvField(value, PhantomData)
    }
}

impl<T, V> From<T> for EnvField<T, V> {
    /// Wraps a value as it is: nothing is expanded or parsed.
    fn from(value: T) -> (field: Self) {
        EnvField(value, PhantomData)
    }
}

impl<T: Default, V> Default for EnvField<T, V> {
    /// The wrapped default of the inner type.
    fn default() -> (field: Self)
        ensures
            call_ensures(T::default, (), field.0),
    {
        EnvField(T::default(), PhantomData)
    }
}

impl<T, V> Deref for EnvField<T, V> {
    type Target = T;

    /// The wrapped value.
    fn deref(&self) -> (inner: &T)
        ensures
            *inner == self.0,
    {
        &self.0
    }
}

impl<T, V> DerefMut for EnvField<T, V> {
    /// The wrapped value, to be changed in place.
    fn deref_mut(&mut self) -> (inner: &mut T)
        ensures
            *inner == old(self).0,
            final(self).0 == *final(inner),
    {
        &mut self.0
    }
}

} // verus!
