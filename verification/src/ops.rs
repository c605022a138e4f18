//! The operators `+ - * / %` and unary `-` on the scalar: each is the
//! method of the same name, saturating and total.

use vstd::prelude::*;
use crate::fx::{Fx, add_raw, sub_raw, mul_raw, div_raw, rem_raw, neg_raw};

verus! {

impl core::ops::Add for Fx {
    type Output = Fx;

    fn add(self, rhs: Fx) -> (r: Fx) {
        Fx::from_bits(self.add(rhs).to_bits())
    }
}

impl vstd::std_specs::ops::AddSpecImpl for Fx {
    open spec fn obeys_add_spec() -> bool {
        true
    }

    open spec fn add_req(self, rhs: Fx) -> bool {
        true
    }

    open spec fn add_spec(self, rhs: Fx) -> Fx {
        Fx { bits: add_raw(self@, rhs@) as i64 }
    }
}

impl core::ops::Sub for Fx {
    type Output = Fx;

    fn sub(self, rhs: Fx) -> (r: Fx) {
        Fx::from_bits(self.sub(rhs).to_bits())
    }
}

impl vstd::std_specs::ops::SubSpecImpl for Fx {
    open spec fn obeys_sub_spec() -> bool {
        true
    }

    open spec fn sub_req(self, rhs: Fx) -> bool {
        true
    }

    open spec fn sub_spec(self, rhs: Fx) -> Fx {
        Fx { bits: sub_raw(self@, rhs@) as i64 }
    }
}

impl core::ops::Mul for Fx {
    type Output = Fx;

    fn mul(self, rhs: Fx) -> (r: Fx) {
        Fx::from_bits(self.mul(rhs).to_bits())
    }
}

impl vstd::std_specs::ops::MulSpecImpl for Fx {
    open spec fn obeys_mul_spec() -> bool {
        true
    }

    open spec fn mul_req(self, rhs: Fx) -> bool {
        true
    }

    open spec fn mul_spec(self, rhs: Fx) -> Fx {
        Fx { bits: mul_raw(self@, rhs@) as i64 }
    }
}

impl core::ops::Div for Fx {
    type Output = Fx;

    fn div(self, rhs: Fx) -> (r: Fx) {
        Fx::from_bits(self.div(rhs).to_bits())
    }
}

impl vstd::std_specs::ops::DivSpecImpl for Fx {
    open spec fn obeys_div_spec() -> bool {
        true
    }

    open spec fn div_req(self, rhs: Fx) -> bool {
        true
    }

    open spec fn div_spec(self, rhs: Fx) -> Fx {
        Fx { bits: div_raw(self@, rhs@) as i64 }
    }
}

impl core::ops::Rem for Fx {
    type Output = Fx;

    fn rem(self, rhs: Fx) -> (r: Fx) {
        Fx::from_bits(self.rem(rhs).to_bits())
    }
}

impl vstd::std_specs::ops::RemSpecImpl for Fx {
    open spec fn obeys_rem_spec() -> bool {
        true
    }

    open spec fn rem_req(self, rhs: Fx) -> bool {
        true
    }

    open spec fn rem_spec(self, rhs: Fx) -> Fx {
        Fx { bits: rem_raw(self@, rhs@) as i64 }
    }
}

impl core::ops::Neg for Fx {
    type Output = Fx;

    fn neg(self) -> (r: Fx) {
        Fx::from_bits(self.neg().to_bits())
    }
}

impl vstd::std_specs::ops::NegSpecImpl for Fx {
    open spec fn obeys_neg_spec() -> bool {
        true
    }

    open spec fn neg_req(self) -> bool {
        true
    }

    open spec fn neg_spec(self) -> Fx {
        Fx { bits: neg_raw(self@) as i64 }
    }
}

} // verus!
