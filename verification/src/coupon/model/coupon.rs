//! A coupon as stored, as requested and as returned.

use crate::coupon::model::coupon_discount::{parsed_discount, CouponDiscount};
use vstd::prelude::*;

verus! {

/// A date and time without a zone: whole seconds since 1970-01-01 00:00:00,
/// and the nanoseconds into that second.
#[derive(Clone, Copy, Debug, PartialEq, Eq, Structural)]
pub struct Moment {
    pub seconds: i64,
    pub nanos: u32,
}

impl Moment {
    /// True when `self` is earlier than `other`.
    pub open spec fn is_before(self, other: Moment) -> bool {
        self.seconds < other.seconds || (self.seconds == other.seconds && self.nanos < other.nanos)
    }

    /// Whether this moment is earlier than `other`.
    pub fn before(&self, other: &Moment) -> (earlier: bool)
        ensures
            earlier == self.is_before(*other),
    {
        self.seconds < other.seconds || (self.seconds == other.seconds && self.nanos < other.nanos)
    }
}

/// A coupon as the database holds it.
#[derive(Debug, PartialEq, Eq)]
pub struct Coupon {
    pub id: i32,
    pub code: String,
    pub discount: i32,
    pub active: bool,
    pub max_usage_count: Option<i32>,
    pub expiration_date: Option<Moment>,
    pub date_created: Option<Moment>,
    pub date_updated: Option<Moment>,
}

/// A coupon that is ready to be inserted: its discount has been checked.
#[derive(Debug, PartialEq, Eq)]
pub struct CouponInsert {
    pub code: String,
    pub discount: CouponDiscount,
    pub active: bool,
    pub max_usage_count: Option<i32>,
    pub expiration_date: Option<Moment>,
}

/// A request to insert a coupon.
#[derive(Clone, Debug, PartialEq, Eq)]
pub struct CouponInsertRequest {
    pub code: String,
    pub discount: i32,
    pub active: bool,
    pub max_usage_count: Option<i32>,
    pub expiration_date: Option<Moment>,
}

/// An update that is ready to be written: its discount has been checked.
#[derive(Debug, PartialEq, Eq)]
pub struct CouponUpdate {
    pub discount: CouponDiscount,
    pub active: bool,
    pub max_usage_count: Option<i32>,
    pub expiration_date: Option<Moment>,
}

/// A request to update a coupon.
#[derive(Debug, PartialEq, Eq)]
pub struct CouponUpdateRequest {
    pub discount: i32,
    pub active: bool,
    pub max_usage_count: Option<i32>,
    pub expiration_date: Option<Moment>,
}

/// A coupon as the endpoints return it.
#[derive(Clone, Debug, PartialEq, Eq)]
pub struct CouponResponse {
    pub id: i32,
    pub code: String,
    pub discount: i32,
    pub active: bool,
    pub max_usage_count: Option<i32>,
    pub expiration_date: Option<Moment>,
    pub date_created: Option<Moment>,
    pub date_updated: Option<Moment>,
}

/// Why a coupon request failed, with the message for the caller.
#[derive(Debug, PartialEq, Eq)]
pub enum CouponError {
    AlreadyExistsError(String),
    InternalError(String),
    NotFoundError(String),
    ValidationError(String),
    UnexpectedError(String),
}

impl CouponResponse {
    /// The response for a stored coupon: every field as it is.
    pub fn try_from(coupon: Coupon) -> (r: Result<CouponResponse, String>)
        ensures
            r is Ok,
            r->Ok_0.id == coupon.id,
            r->Ok_0.code == coupon.code,
            r->Ok_0.discount == coupon.discount,
            r->Ok_0.active == coupon.active,
            r->Ok_0.max_usage_count == coupon.max_usage_count,
            r->Ok_0.expiration_date == coupon.expiration_date,
            r->Ok_0.date_created == coupon.date_created,
            r->Ok_0.date_updated == coupon.date_updated,
    {
        Ok(
            CouponResponse {
                id: coupon.id,
                code: coupon.code,
                discount: coupon.discount,
                active: coupon.active,
                max_usage_count: coupon.max_usage_count,
                expiration_date: coupon.expiration_date,
                date_created: coupon.date_created,
                date_updated: coupon.date_updated,
            },
        )
    }
}

impl CouponUpdate {
    /// Checks the discount of an update request and keeps its other fields.
    pub fn try_from(coupon: CouponUpdateRequest) -> (r: Result<CouponUpdate, String>)
        ensures
            match parsed_discount(coupon.discount as int) {
                Ok(d) => {
                    &&& r is Ok
                    &&& r->Ok_0.discount@ == d
                    &&& r->Ok_0.active == coupon.active
                    &&& r->Ok_0.max_usage_count == coupon.max_usage_count
                    &&& r->Ok_0.expiration_date == coupon.expiration_date
                },
                Err(message) => r is Err && r->Err_0@ == message,
            },
    {
        match CouponDiscount::parse(coupon.discount) {
            Ok(discount) => Ok(
                CouponUpdate {
                    discount,
                    active: coupon.active,
                    max_usage_count: coupon.max_usage_count,
                    expiration_date: coupon.expiration_date,
                },
            ),
            Err(message) => Err(message),
        }
    }
}

impl CouponInsert {
    /// Checks the discount of an insert request and keeps its other fields.
    pub fn try_from(coupon: CouponInsertRequest) -> (r: Result<CouponInsert, String>)
        ensures
            match parsed_discount(coupon.discount as int) {
                Ok(d) => {
                    &&& r is Ok
                    &&& r->Ok_0.code == coupon.code
                    &&& r->Ok_0.discount@ == d
                    &&& r->Ok_0.active == coupon.active
                    &&& r->Ok_0.max_usage_count == coupon.max_usage_count
                    &&& r->Ok_0.expiration_date == coupon.expiration_date
                },
                Err(message) => r is Err && r->Err_0@ == message,
            },
    {
        match CouponDiscount::parse(coupon.discount) {
            Ok(discount) => Ok(
                CouponInsert {
                    code: coupon.code,
                    discount,
                    active: coupon.active,
                    max_usage_count: coupon.max_usage_count,
                    expiration_date: coupon.expiration_date,
                },
            ),
            Err(message) => Err(message),
        }
    }
}

impl CouponInsertRequest {
    /// The request that would insert a stored coupon again.
    pub fn from(coupon: Coupon) -> (r: CouponInsertRequest)
        ensures
            r.code == coupon.code,
            r.discount == coupon.discount,
            r.active == coupon.active,
            r.max_usage_count == coupon.max_usage_count,
            r.expiration_date == coupon.expiration_date,
    {
        CouponInsertRequest {
            code: coupon.code,
            discount: coupon.discount,
            active: coupon.active,
            max_usage_count: coupon.max_usage_count,
            expiration_date: coupon.expiration_date,
        }
    }
}

impl CouponError {
    /// The status that answers the failed request.
    pub fn status_code(&self) -> (status: u16)
        ensures
            status == match *self {
                CouponError::AlreadyExistsError(_) => 409u16,
                CouponError::InternalError(_) => 500u16,
                CouponError::NotFoundError(_) => 404u16,
                CouponError::ValidationError(_) => 422u16,
                CouponError::UnexpectedError(_) => 500u16,
            },
    {
        match self {
            CouponError::AlreadyExistsError(_) => 409,
            CouponError::InternalError(_) => 500,
            CouponError::NotFoundError(_) => 404,
            CouponError::ValidationError(_) => 422,
            CouponError::UnexpectedError(_) => 500,
        }
    }

    /// The message of the error.
    pub fn message(&self) -> (message: &String)
        ensures
            *message == match *self {
                CouponError::AlreadyExistsError(m) => m,
                CouponError::InternalError(m) => m,
                CouponError::NotFoundError(m) => m,
                CouponError::ValidationError(m) => m,
                CouponError::UnexpectedError(m) => m,
            },
    {
        match self {
            CouponError::AlreadyExistsError(m) => m,
            CouponError::InternalError(m) => m,
            CouponError::NotFoundError(m) => m,
            CouponError::ValidationError(m) => m,
            CouponError::UnexpectedError(m) => m,
        }
    }
}

} // verus!
