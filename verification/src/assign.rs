//! Compound assignment on a wrapped value.
//!
//! `a op= b` stores in `a` what `a op b` gives for the wrapped values.

use crate::field::EnvField;
use core::ops::{
    Add, AddAssign, BitAnd, BitAndAssign, BitOr, BitOrAssign, BitXor, BitXorAssign, Div, DivAssign,
    Mul, MulAssign, Rem, RemAssign, Shl, ShlAssign, Shr, ShrAssign, Sub, SubAssign,
};
use vstd::prelude::*;
use vstd::std_specs::ops::{
    AddSpec, BitAndSpec, BitOrSpec, BitXorSpec, DivSpec, MulSpec, RemSpec, ShlSpec, ShrSpec,
    SubSpec,
};

verus! {

impl<T: Add<Output = T> + Copy, V> AddAssign<T> for EnvField<T, V> {
    fn add_assign(&mut self, rhs: T)
        requires
            old(self).0.add_req(rhs),
        ensures
            T::obeys_add_spec() ==> final(self).0 == old(self).0.add_spec(rhs),
    {
        self.0 = self.0 + rhs;
    }
}

impl<T: Add<Output = T> + Copy, V> AddAssign for EnvField<T, V> {
    fn add_assign(&mut self, rhs: EnvField<T, V>)
        requires
            old(self).0.add_req(rhs.0),
        ensures
            T::obeys_add_spec() ==> final(self).0 == old(self).0.add_spec(rhs.0),
    {
        self.0 = self.0 + rhs.0;
    }
}

impl<T: Sub<Output = T> + Copy, V> SubAssign<T> for EnvField<T, V> {
    fn sub_assign(&mut self, rhs: T)
        requires
            old(self).0.sub_req(rhs),
        ensures
            T::obeys_sub_spec() ==> final(self).0 == old(self).0.sub_spec(rhs),
    {
        self.0 = self.0 - rhs;
    }
}

impl<T: Sub<Output = T> + Copy, V> SubAssign for EnvField<T, V> {
    fn sub_assign(&mut self, rhs: EnvField<T, V>)
        requires
            old(self).0.sub_req(rhs.0),
        ensures
            T::obeys_sub_spec() ==> final(self).0 == old(self).0.sub_spec(rhs.0),
    {
        self.0 = self.0 - rhs.0;
    }
}

impl<T: Mul<Output = T> + Copy, V> MulAssign<T> for EnvField<T, V> {
    fn mul_assign(&mut self, rhs: T)
        requires
            old(self).0.mul_req(rhs),
        ensures
            T::obeys_mul_spec() ==> final(self).0 == old(self).0.mul_spec(rhs),
    {
        self.0 = self.0 * rhs;
    }
}

impl<T: Mul<Output = T> + Copy, V> MulAssign for EnvField<T, V> {
    fn mul_assign(&mut self, rhs: EnvField<T, V>)
        requires
            old(self).0.mul_req(rhs.0),
        ensures
            T::obeys_mul_spec() ==> final(self).0 == old(self).0.mul_spec(rhs.0),
    {
        self.0 = self.0 * rhs.0;
    }
}

impl<T: Div<Output = T> + Copy, V> DivAssign<T> for EnvField<T, V> {
    fn div_assign(&mut self, rhs: T)
        requires
            old(self).0.div_req(rhs),
        ensures
            T::obeys_div_spec() ==> final(self).0 == old(self).0.div_spec(rhs),
    {
        self.0 = self.0 / rhs;
    }
}

impl<T: Div<Output = T> + Copy, V> DivAssign for EnvField<T, V> {
    fn div_assign(&mut self, rhs: EnvField<T, V>)
        requires
            old(self).0.div_req(rhs.0),
        ensures
            T::obeys_div_spec() ==> final(self).0 == old(self).0.div_spec(rhs.0),
    {
        self.0 = self.0 / rhs.0;
    }
}

impl<T: Rem<Output = T> + Copy, V> RemAssign<T> for EnvField<T, V> {
    fn rem_assign(&mut self, rhs: T)
        requires
            old(self).0.rem_req(rhs),
        ensures
            T::obeys_rem_spec() ==> final(self).0 == old(self).0.rem_spec(rhs),
    {
        self.0 = self.0 % rhs;
    }
}

impl<T: Rem<Output = T> + Copy, V> RemAssign for EnvField<T, V> {
    fn rem_assign(&mut self, rhs: EnvField<T, V>)
        requires
            old(self).0.rem_req(rhs.0),
        ensures
            T::obeys_rem_spec() ==> final(self).0 == old(self).0.rem_spec(rhs.0),
    {
        self.0 = self.0 % rhs.0;
    }
}

impl<T: BitAnd<Output = T> + Copy, V> BitAndAssign<T> for EnvField<T, V> {
    fn bitand_assign(&mut self, rhs: T)
        requires
            old(self).0.bitand_req(rhs),
        ensures
            T::obeys_bitand_spec() ==> final(self).0 == old(self).0.bitand_spec(rhs),
    {
        self.0 = self.0 & rhs;
    }
}

impl<T: BitAnd<Output = T> + Copy, V> BitAndAssign for EnvField<T, V> {
    fn bitand_assign(&mut self, rhs: EnvField<T, V>)
        requires
            old(self).0.bitand_req(rhs.0),
        ensures
            T::obeys_bitand_spec() ==> final(self).0 == old(self).0.bitand_spec(rhs.0),
    {
        self.0 = self.0 & rhs.0;
    }
}

impl<T: BitOr<Output = T> + Copy, V> BitOrAssign<T> for EnvField<T, V> {
    fn bitor_assign(&mut self, rhs: T)
        requires
            old(self).0.bitor_req(rhs),
        ensures
            T::obeys_bitor_spec() ==> final(self).0 == old(self).0.bitor_spec(rhs),
    {
        self.0 = self.0 | rhs;
    }
}

impl<T: BitOr<Output = T> + Copy, V> BitOrAssign for EnvField<T, V> {
    fn bitor_assign(&mut self, rhs: EnvField<T, V>)
        requires
            old(self).0.bitor_req(rhs.0),
        ensures
            T::obeys_bitor_spec() ==> final(self).0 == old(self).0.bitor_spec(rhs.0),
    {
        self.0 = self.0 | rhs.0;
    }
}

impl<T: BitXor<Output = T> + Copy, V> BitXorAssign<T> for EnvField<T, V> {
    fn bitxor_assign(&mut self, rhs: T)
        requires
            old(self).0.bitxor_req(rhs),
        ensures
            T::obeys_bitxor_spec() ==> final(self).0 == old(self).0.bitxor_spec(rhs),
    {
        self.0 = self.0 ^ rhs;
    }
}

impl<T: BitXor<Output = T> + Copy, V> BitXorAssign for EnvField<T, V> {
    fn bitxor_assign(&mut self, rhs: EnvField<T, V>)
        requires
            old(self).0.bitxor_req(rhs.0),
        ensures
            T::obeys_bitxor_spec() ==> final(self).0 == old(self).0.bitxor_spec(rhs.0),
    {
        self.0 = self.0 ^ rhs.0;
    }
}

impl<T: Shl<Output = T> + Copy, V> ShlAssign<T> for EnvField<T, V> {
    fn shl_assign(&mut self, rhs: T)
        requires
            old(self).0.shl_req(rhs),
        ensures
            T::obeys_shl_spec() ==> final(self).0 == old(self).0.shl_spec(rhs),
    {
        self.0 = self.0 << rhs;
    }
}

impl<T: Shl<Output = T> + Copy, V> ShlAssign for EnvField<T, V> {
    fn shl_assign(&mut self, rhs: EnvField<T, V>)
        requires
            old(self).0.shl_req(rhs.0),
        ensures
            T::obeys_shl_spec() ==> final(self).0 == old(self).0.shl_spec(rhs.0),
    {
        self.0 = self.0 << rhs.0;
    }
}

impl<T: Shr<Output = T> + Copy, V> ShrAssign<T> for EnvField<T, V> {
    fn shr_assign(&mut self, rhs: T)
        requires
            old(self).0.shr_req(rhs),
        ensures
            T::obeys_shr_spec() ==> final(self).0 == old(self).0.shr_spec(rhs),
    {
        self.0 = self.0 >> rhs;
    }
}

impl<T: Shr<Output = T> + Copy, V> ShrAssign for EnvField<T, V> {
    fn shr_assign(&mut self, rhs: EnvField<T, V>)
        requires
            old(self).0.shr_req(rhs.0),
        ensures
            T::obeys_shr_spec() ==> final(self).0 == old(self).0.shr_spec(rhs.0),
    {
        self.0 = self.0 >> rhs.0;
    }
}

} // verus!
