//! Coupons: their data, the rules on their fields, and the decisions of the
//! coupon endpoints.

pub mod coupon_repository;
pub mod coupon_service;
pub mod model;

pub use self::coupon_repository::Fields;
pub use self::coupon_service::{
    get_by_id_or_code, insert, inserted_id, is_valid, update, CouponQueryRequest,
};
pub use self::model::{
    Coupon, CouponDiscount, CouponError, CouponInsert, CouponInsertRequest, CouponResponse,
    CouponUpdate, CouponUpdateRequest, Moment,
};
