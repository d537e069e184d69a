//! Arithmetic and bitwise operators on a wrapped value.
//!
//! Every operator hands the wrapped value, and the wrapped value of a wrapped
//! right-hand side, to the operator of the inner type, and returns what that
//! returns.

use crate::field::EnvField;
use core::ops::{Add, BitAnd, BitOr, BitXor, Div, Mul, Neg, Not, Rem, Shl, Shr, Sub};
use vstd::prelude::*;
use vstd::std_specs::ops::{
    AddSpec, AddSpecImpl, BitAndSpec, BitAndSpecImpl, BitOrSpec, BitOrSpecImpl, BitXorSpec,
    BitXorSpecImpl, DivSpec, DivSpecImpl, MulSpec, MulSpecImpl, NegSpec, NegSpecImpl, NotSpec,
    NotSpecImpl, RemSpec, RemSpecImpl, ShlSpec, ShlSpecImpl, ShrSpec, ShrSpecImpl, SubSpec,
    SubSpecImpl,
};

verus! {

impl<T: Neg, V> NegSpecImpl for EnvField<T, V> {
    open spec fn obeys_neg_spec() -> bool {
        T::obeys_neg_spec()
    }

    open spec fn neg_req(self) -> bool {
        self.0.neg_req()
    }

    open spec fn neg_spec(self) -> T::Output {
        self.0.neg_spec()
    }
}

impl<T: Neg, V> Neg for EnvField<T, V> {
    type Output = T::Output;

    /// The negation of the wrapped value.
    fn neg(self) -> (out: T::Output) {
        self.0.neg()
    }
}

impl<T: Not, V> NotSpecImpl for EnvField<T, V> {
    open spec fn obeys_not_spec() -> bool {
        T::obeys_not_spec()
    }

    open spec fn not_req(self) -> bool {
        self.0.not_req()
    }

    open spec fn not_spec(self) -> T::Output {
        self.0.not_spec()
    }
}

impl<T: Not, V> Not for EnvField<T, V> {
    type Output = T::Output;

    /// The complement of the wrapped value.
    fn not(self) -> (out: T::Output) {
        self.0.not()
    }
}

impl<T: Add, V> AddSpecImpl<T> for EnvField<T, V> {
    open spec fn obeys_add_spec() -> bool {
        T::obeys_add_spec()
    }

    open spec fn add_req(self, rhs: T) -> bool {
        self.0.add_req(rhs)
    }

    open spec fn add_spec(self, rhs: T) -> T::Output {
        self.0.add_spec(rhs)
    }
}

impl<T: Add, V> Add<T> for EnvField<T, V> {
    type Output = T::Output;

    /// The sum of the wrapped value and a bare one.
    fn add(self, rhs: T) -> (out: T::Output) {
        self.0 + rhs
    }
}

impl<T: Add, V> AddSpecImpl<EnvField<T, V>> for EnvField<T, V> {
    open spec fn obeys_add_spec() -> bool {
        T::obeys_add_spec()
    }

    open spec fn add_req(self, rhs: EnvField<T, V>) -> bool {
        self.0.add_req(rhs.0)
    }

    open spec fn add_spec(self, rhs: EnvField<T, V>) -> T::Output {
        self.0.add_spec(rhs.0)
    }
}

impl<T: Add, V> Add<EnvField<T, V>> for EnvField<T, V> {
    type Output = T::Output;

    /// The sum of two wrapped values.
    fn add(self, rhs: EnvField<T, V>) -> (out: T::Output) {
        self.0 + rhs.0
    }
}

impl<T: Sub, V> SubSpecImpl<T> for EnvField<T, V> {
    open spec fn obeys_sub_spec() -> bool {
        T::obeys_sub_spec()
    }

    open spec fn sub_req(self, rhs: T) -> bool {
        self.0.sub_req(rhs)
    }

    open spec fn sub_spec(self, rhs: T) -> T::Output {
        self.0.sub_spec(rhs)
    }
}

impl<T: Sub, V> Sub<T> for EnvField<T, V> {
    type Output = T::Output;

    /// The difference of the wrapped value and a bare one.
    fn sub(self, rhs: T) -> (out: T::Output) {
        self.0 - rhs
    }
}

impl<T: Sub, V> SubSpecImpl<EnvField<T, V>> for EnvField<T, V> {
    open spec fn obeys_sub_spec() -> bool {
        T::obeys_sub_spec()
    }

    open spec fn sub_req(self, rhs: EnvField<T, V>) -> bool {
        self.0.sub_req(rhs.0)
    }

    open spec fn sub_spec(self, rhs: EnvField<T, V>) -> T::Output {
        self.0.sub_spec(rhs.0)
    }
}

impl<T: Sub, V> Sub<EnvField<T, V>> for EnvField<T, V> {
    type Output = T::Output;

    /// The difference of two wrapped values.
    fn sub(self, rhs: EnvField<T, V>) -> (out: T::Output) {
        self.0 - rhs.0
    }
}

impl<T: Mul, V> MulSpecImpl<T> for EnvField<T, V> {
    open spec fn obeys_mul_spec() -> bool {
        T::obeys_mul_spec()
    }

    open spec fn mul_req(self, rhs: T) -> bool {
        self.0.mul_req(rhs)
    }

    open spec fn mul_spec(self, rhs: T) -> T::Output {
        self.0.mul_spec(rhs)
    }
}

impl<T: Mul, V> Mul<T> for EnvField<T, V> {
    type Output = T::Output;

    /// The product of the wrapped value and a bare one.
    fn mul(self, rhs: T) -> (out: T::Output) {
        self.0 * rhs
    }
}

impl<T: Mul, V> MulSpecImpl<EnvField<T, V>> for EnvField<T, V> {
    open spec fn obeys_mul_spec() -> bool {
        T::obeys_mul_spec()
    }

    open spec fn mul_req(self, rhs: EnvField<T, V>) -> bool {
        self.0.mul_req(rhs.0)
    }

    open spec fn mul_spec(self, rhs: EnvField<T, V>) -> T::Output {
        self.0.mul_spec(rhs.0)
    }
}

impl<T: Mul, V> Mul<EnvField<T, V>> for EnvField<T, V> {
    type Output = T::Output;

    /// The product of two wrapped values.
    fn mul(self, rhs: EnvField<T, V>) -> (out: T::Output) {
        self.0 * rhs.0
    }
}

impl<T: Div, V> DivSpecImpl<T> for EnvField<T, V> {
    open spec fn obeys_div_spec() -> bool {
        T::obeys_div_spec()
    }

    open spec fn div_req(self, rhs: T) -> bool {
        self.0.div_req(rhs)
    }

    open spec fn div_spec(self, rhs: T) -> T::Output {
        self.0.div_spec(rhs)
    }
}

impl<T: Div, V> Div<T> for EnvField<T, V> {
    type Output = T::Output;

    /// The quotient of the wrapped value and a bare one.
    fn div(self, rhs: T) -> (out: T::Output) {
        self.0 / rhs
    }
}

impl<T: Div, V> DivSpecImpl<EnvField<T, V>> for EnvField<T, V> {
    open spec fn obeys_div_spec() -> bool {
        T::obeys_div_spec()
    }

    open spec fn div_req(self, rhs: EnvField<T, V>) -> bool {
        self.0.div_req(rhs.0)
    }

    open spec fn div_spec(self, rhs: EnvField<T, V>) -> T::Output {
        self.0.div_spec(rhs.0)
    }
}

impl<T: Div, V> Div<EnvField<T, V>> for EnvField<T, V> {
    type Output = T::Output;

    /// The quotient of two wrapped values.
    fn div(self, rhs: EnvField<T, V>) -> (out: T::Output) {
        self.0 / rhs.0
    }
}

impl<T: Rem, V> RemSpecImpl<T> for EnvField<T, V> {
    open spec fn obeys_rem_spec() -> bool {
        T::obeys_rem_spec()
    }

    open spec fn rem_req(self, rhs: T) -> bool {
        self.0.rem_req(rhs)
    }

    open spec fn rem_spec(self, rhs: T) -> T::Output {
        self.0.rem_spec(rhs)
    }
}

impl<T: Rem, V> Rem<T> for EnvField<T, V> {
    type Output = T::Output;

    /// The remainder of the wrapped value and a bare one.
    fn rem(self, rhs: T) -> (out: T::Output) {
        self.0 % rhs
    }
}

impl<T: Rem, V> RemSpecImpl<EnvField<T, V>> for EnvField<T, V> {
    open spec fn obeys_rem_spec() -> bool {
        T::obeys_rem_spec()
    }

    open spec fn rem_req(self, rhs: EnvField<T, V>) -> bool {
        self.0.rem_req(rhs.0)
    }

    open spec fn rem_spec(self, rhs: EnvField<T, V>) -> T::Output {
        self.0.rem_spec(rhs.0)
    }
}

impl<T: Rem, V> Rem<EnvField<T, V>> for EnvField<T, V> {
    type Output = T::Output;

    /// The remainder of two wrapped values.
    fn rem(self, rhs: EnvField<T, V>) -> (out: T::Output) {
        self.0 % rhs.0
    }
}

impl<T: BitAnd, V> BitAndSpecImpl<T> for EnvField<T, V> {
    open spec fn obeys_bitand_spec() -> bool {
        T::obeys_bitand_spec()
    }

    open spec fn bitand_req(self, rhs: T) -> bool {
        self.0.bitand_req(rhs)
    }

    open spec fn bitand_spec(self, rhs: T) -> T::Output {
        self.0.bitand_spec(rhs)
    }
}

impl<T: BitAnd, V> BitAnd<T> for EnvField<T, V> {
    type Output = T::Output;

    /// The bitwise and of the wrapped value and a bare one.
    fn bitand(self, rhs: T) -> (out: T::Output) {
        self.0 & rhs
    }
}

impl<T: BitAnd, V> BitAndSpecImpl<EnvField<T, V>> for EnvField<T, V> {
    open spec fn obeys_bitand_spec() -> bool {
        T::obeys_bitand_spec()
    }

    open spec fn bitand_req(self, rhs: EnvField<T, V>) -> bool {
        self.0.bitand_req(rhs.0)
    }

    open spec fn bitand_spec(self, rhs: EnvField<T, V>) -> T::Output {
        self.0.bitand_spec(rhs.0)
    }
}

impl<T: BitAnd, V> BitAnd<EnvField<T, V>> for EnvField<T, V> {
    type Output = T::Output;

    /// The bitwise and of two wrapped values.
    fn bitand(self, rhs: EnvField<T, V>) -> (out: T::Output) {
        self.0 & rhs.0
    }
}

impl<T: BitOr, V> BitOrSpecImpl<T> for EnvField<T, V> {
    open spec fn obeys_bitor_spec() -> bool {
        T::obeys_bitor_spec()
    }

    open spec fn bitor_req(self, rhs: T) -> bool {
        self.0.bitor_req(rhs)
    }

    open spec fn bitor_spec(self, rhs: T) -> T::Output {
        self.0.bitor_spec(rhs)
    }
}

impl<T: BitOr, V> BitOr<T> for EnvField<T, V> {
    type Output = T::Output;

    /// The bitwise or of the wrapped value and a bare one.
    fn bitor(self, rhs: T) -> (out: T::Output) {
        self.0 | rhs
    }
}

impl<T: BitOr, V> BitOrSpecImpl<EnvField<T, V>> for EnvField<T, V> {
    open spec fn obeys_bitor_spec() -> bool {
        T::obeys_bitor_spec()
    }

    open spec fn bitor_req(self, rhs: EnvField<T, V>) -> bool {
        self.0.bitor_req(rhs.0)
    }

    open spec fn bitor_spec(self, rhs: EnvField<T, V>) -> T::Output {
        self.0.bitor_spec(rhs.0)
    }
}

impl<T: BitOr, V> BitOr<EnvField<T, V>> for EnvField<T, V> {
    type Output = T::Output;

    /// The bitwise or of two wrapped values.
    fn bitor(self, rhs: EnvField<T, V>) -> (out: T::Output) {
        self.0 | rhs.0
    }
}

impl<T: BitXor, V> BitXorSpecImpl<T> for EnvField<T, V> {
    open spec fn obeys_bitxor_spec() -> bool {
        T::obeys_bitxor_spec()
    }

    open spec fn bitxor_req(self, rhs: T) -> bool {
        self.0.bitxor_req(rhs)
    }

    open spec fn bitxor_spec(self, rhs: T) -> T::Output {
        self.0.bitxor_spec(rhs)
    }
}

impl<T: BitXor, V> BitXor<T> for EnvField<T, V> {
    type Output = T::Output;

    /// The bitwise exclusive or of the wrapped value and a bare one.
    fn bitxor(self, rhs: T) -> (out: T::Output) {
        self.0 ^ rhs
    }
}

impl<T: BitXor, V> BitXorSpecImpl<EnvField<T, V>> for EnvField<T, V> {
    open spec fn obeys_bitxor_spec() -> bool {
        T::obeys_bitxor_spec()
    }

    open spec fn bitxor_req(self, rhs: EnvField<T, V>) -> bool {
        self.0.bitxor_req(rhs.0)
    }

    open spec fn bitxor_spec(self, rhs: EnvField<T, V>) -> T::Output {
        self.0.bitxor_spec(rhs.0)
    }
}

impl<T: BitXor, V> BitXor<EnvField<T, V>> for EnvField<T, V> {
    type Output = T::Output;

    /// The bitwise exclusive or of two wrapped values.
    fn bitxor(self, rhs: EnvField<T, V>) -> (out: T::Output) {
        self.0 ^ rhs.0
    }
}

impl<T: Shl, V> ShlSpecImpl<T> for EnvField<T, V> {
    open spec fn obeys_shl_spec() -> bool {
        T::obeys_shl_spec()
    }

    open spec fn shl_req(self, rhs: T) -> bool {
        self.0.shl_req(rhs)
    }

    open spec fn shl_spec(self, rhs: T) -> T::Output {
        self.0.shl_spec(rhs)
    }
}

impl<T: Shl, V> Shl<T> for EnvField<T, V> {
    type Output = T::Output;

    /// The shift to the left of the wrapped value and a bare one.
    fn shl(self, rhs: T) -> (out: T::Output) {
        self.0 << rhs
    }
}

impl<T: Shl, V> ShlSpecImpl<EnvField<T, V>> for EnvField<T, V> {
    open spec fn obeys_shl_spec() -> bool {
        T::obeys_shl_spec()
    }

    open spec fn shl_req(self, rhs: EnvField<T, V>) -> bool {
        self.0.shl_req(rhs.0)
    }

    open spec fn shl_spec(self, rhs: EnvField<T, V>) -> T::Output {
        self.0.shl_spec(rhs.0)
    }
}

impl<T: Shl, V> Shl<EnvField<T, V>> for EnvField<T, V> {
    type Output = T::Output;

    /// The shift to the left of two wrapped values.
    fn shl(self, rhs: EnvField<T, V>) -> (out: T::Output) {
        self.0 << rhs.0
    }
}

impl<T: Shr, V> ShrSpecImpl<T> for EnvField<T, V> {
    open spec fn obeys_shr_spec() -> bool {
        T::obeys_shr_spec()
    }

    open spec fn shr_req(self, rhs: T) -> bool {
        self.0.shr_req(rhs)
    }

    open spec fn shr_spec(self, rhs: T) -> T::Output {
        self.0.shr_spec(rhs)
    }
}

impl<T: Shr, V> Shr<T> for EnvField<T, V> {
    type Output = T::Output;

    /// The shift to the right of the wrapped value and a bare one.
    fn shr(self, rhs: T) -> (out: T::Output) {
        self.0 >> rhs
    }
}

impl<T: Shr, V> ShrSpecImpl<EnvField<T, V>> for EnvField<T, V> {
    open spec fn obeys_shr_spec() -> bool {
        T::obeys_shr_spec()
    }

    open spec fn shr_req(self, rhs: EnvField<T, V>) -> bool {
        self.0.shr_req(rhs.0)
    }

    open spec fn shr_spec(self, rhs: EnvField<T, V>) -> T::Output {
        self.0.shr_spec(rhs.0)
    }
}

impl<T: Shr, V> Shr<EnvField<T, V>> for EnvField<T, V> {
    type Output = T::Output;

    /// The shift to the right of two wrapped values.
    fn shr(self, rhs: EnvField<T, V>) -> (out: T::Output) {
        self.0 >> rhs.0
    }
}

} // verus!
