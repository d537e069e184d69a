//! Equality and order of a wrapped value.
//!
//! A wrapped value compares as the value it holds, with a bare value and with
//! another wrapped one.

use crate::field::EnvField;
use core::cmp::Ordering;
use vstd::prelude::*;
use vstd::std_specs::cmp::{PartialEqSpec, PartialEqSpecImpl, PartialOrdSpec, PartialOrdSpecImpl};

verus! {

impl<T: PartialEq, V> PartialEqSpecImpl<T> for EnvField<T, V> {
    open spec fn obeys_eq_spec() -> bool {
        T::obeys_eq_spec()
    }

    open spec fn eq_spec(&self, other: &T) -> bool {
        self.0.eq_spec(other)
    }
}

impl<T: PartialEq, V> PartialEq<T> for EnvField<T, V> {
    /// Whether the wrapped value equals the bare one.
    fn eq(&self, other: &T) -> (equal: bool) {
        self.0.eq(other)
    }
}

impl<T: PartialEq<str>, V> PartialEqSpecImpl<str> for EnvField<T, V> {
    open spec fn obeys_eq_spec() -> bool {
        T::obeys_eq_spec()
    }

    open spec fn eq_spec(&self, other: &str) -> bool {
        self.0.eq_spec(other)
    }
}

impl<T: PartialEq<str>, V> PartialEq<str> for EnvField<T, V> {
    /// Whether the wrapped value equals the text.
    fn eq(&self, other: &str) -> (equal: bool) {
        self.0.eq(other)
    }
}

impl<T: PartialEq, V> PartialEqSpecImpl<EnvField<T, V>> for EnvField<T, V> {
    open spec fn obeys_eq_spec() -> bool {
        T::obeys_eq_spec()
    }

    open spec fn eq_spec(&self, other: &EnvField<T, V>) -> bool {
        self.0.eq_spec(&other.0)
    }
}

impl<T: PartialEq, V> PartialEq<EnvField<T, V>> for EnvField<T, V> {
    /// Whether the two wrapped values are equal.
    fn eq(&self, other: &EnvField<T, V>) -> (equal: bool) {
        self.0.eq(&other.0)
    }
}

impl<T: Eq, V> Eq for EnvField<T, V> {

}

impl<T: PartialOrd, V> PartialOrdSpecImpl<T> for EnvField<T, V> {
    open spec fn obeys_partial_cmp_spec() -> bool {
        T::obeys_partial_cmp_spec()
    }

    open spec fn partial_cmp_spec(&self, other: &T) -> Option<Ordering> {
        self.0.partial_cmp_spec(other)
    }
}

impl<T: PartialOrd, V> PartialOrd<T> for EnvField<T, V> {
    /// How the wrapped value compares with the bare one.
    fn partial_cmp(&self, other: &T) -> (order: Option<Ordering>) {
        self.0.partial_cmp(other)
    }
}

impl<T: PartialOrd, V> PartialOrdSpecImpl<EnvField<T, V>> for EnvField<T, V> {
    open spec fn obeys_partial_cmp_spec() -> bool {
        T::obeys_partial_cmp_spec()
    }

    open spec fn partial_cmp_spec(&self, other: &EnvField<T, V>) -> Option<Ordering> {
        self.0.partial_cmp_spec(&other.0)
    }
}

impl<T: PartialOrd, V> PartialOrd<EnvField<T, V>> for EnvField<T, V> {
    /// How the two wrapped values compare.
    fn partial_cmp(&self, other: &EnvField<T, V>) -> (order: Option<Ordering>) {
        self.0.partial_cmp(&other.0)
    }
}

} // verus!
