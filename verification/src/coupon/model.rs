//! The data of a coupon in its several shapes.

pub mod coupon;
pub mod coupon_discount;

pub use self::coupon::{
    Coupon, CouponError, CouponInsert, CouponInsertRequest, CouponResponse, CouponUpdate,
    CouponUpdateRequest, Moment,
};
pub use self::coupon_discount::CouponDiscount;
