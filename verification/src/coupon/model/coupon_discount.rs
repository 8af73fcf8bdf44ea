//! The discount of a coupon.

use vstd::prelude::*;
use vstd::string::*;

verus! {

/// The highest discount that a coupon can carry.
pub const MAX_DISCOUNT: i32 = 90;

/// A discount in percent, from 0 to 90.
#[derive(Debug, PartialEq, Eq)]
pub struct CouponDiscount(i32);

/// What `parse` makes of a number: the number itself, or why it is refused.
pub open spec fn parsed_discount(d: int) -> Result<int, Seq<char>> {
    if d > MAX_DISCOUNT {
        Err("Discount cannot be higher than 90."@)
    } else if d < 0 {
        Err("Discount cannot be less than 0."@)
    } else {
        Ok(d)
    }
}

/// The view of a parsed discount.
pub open spec fn discount_view(r: Result<CouponDiscount, String>) -> Result<int, Seq<char>> {
    match r {
        Ok(discount) => Ok(discount@),
        Err(message) => Err(message@),
    }
}

impl CouponDiscount {
    #[verifier::type_invariant]
    spec fn in_range(&self) -> bool {
        0 <= self.0 <= MAX_DISCOUNT
    }

    /// The discount as a number.
    pub closed spec fn view(&self) -> int {
        self.0 as int
    }

    /// Accepts a discount from 0 to 90.
    pub fn parse(d: i32) -> (r: Result<CouponDiscount, String>)
        ensures
            discount_view(r) == parsed_discount(d as int),
    {
        if d > MAX_DISCOUNT {
            return Err(String::from_str("Discount cannot be higher than 90."));
        }
        if d < 0 {
            return Err(String::from_str("Discount cannot be less than 0."));
        }
        Ok(CouponDiscount(d))
    }

    /// Read access to the number, which is always from 0 to 90.
    pub fn as_ref(&self) -> (d: &i32)
        ensures
            *d == self@,
            0 <= *d <= MAX_DISCOUNT,
    {
        proof {
            use_type_invariant(self);
        }
        &self.0
    }
}

} // verus!
