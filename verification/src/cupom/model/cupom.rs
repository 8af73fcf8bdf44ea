//! A cupom as stored, as requested and as returned.

use crate::coupon::model::coupon::Moment;
use vstd::prelude::*;

verus! {

/// A cupom as the database holds it.
#[derive(Debug, PartialEq, Eq)]
pub struct Cupom {
    pub id: i32,
    pub code: String,
    pub discount: i32,
    pub max_usage_count: Option<i32>,
    pub expiration_date: Option<Moment>,
    pub date_created: Option<Moment>,
    pub date_updated: Option<Moment>,
}

/// What is inserted for a new cupom.
#[derive(Debug, PartialEq, Eq)]
pub struct CupomInsert {
    pub code: String,
    pub discount: i32,
}

/// A request to insert a cupom.
#[derive(Debug, PartialEq, Eq)]
pub struct CupomRequest {
    pub code: String,
    pub discount: i32,
}

/// A cupom as the endpoints return it.
#[derive(Debug, PartialEq, Eq)]
pub struct CupomResponse {
    pub id: i32,
    pub code: String,
    pub discount: i32,
}

/// Why a cupom request failed, with the message for the caller.
#[derive(Debug, PartialEq, Eq)]
pub enum CupomError {
    NotFoundError(String),
    ValidationError(String),
    UnexpectedError(String),
}

impl CupomInsert {
    /// What would insert a stored cupom again: its code and discount.
    pub fn from_cupom(cupom: Cupom) -> (insert: CupomInsert)
        ensures
            insert.code == cupom.code,
            insert.discount == cupom.discount,
    {
        CupomInsert { code: cupom.code, discount: cupom.discount }
    }

    /// What a request inserts: its code and discount.
    pub fn from_request(request: &CupomRequest) -> (insert: CupomInsert)
        ensures
            insert.code@ == request.code@,
            insert.discount == request.discount,
    {
        CupomInsert { code: request.code.clone(), discount: request.discount }
    }
}

impl CupomResponse {
    /// The response for a stored cupom: its id, code and discount.
    pub fn try_from(cupom: Cupom) -> (r: Result<CupomResponse, String>)
        ensures
            r is Ok,
            r->Ok_0.id == cupom.id,
            r->Ok_0.code == cupom.code,
            r->Ok_0.discount == cupom.discount,
    {
        Ok(CupomResponse { id: cupom.id, code: cupom.code, discount: cupom.discount })
    }
}

impl CupomError {
    /// The status that answers the failed request.
    pub fn status_code(&self) -> (status: u16)
        ensures
            status == match *self {
                CupomError::NotFoundError(_) => 404u16,
                CupomError::ValidationError(_) => 400u16,
                CupomError::UnexpectedError(_) => 500u16,
            },
    {
        match self {
            CupomError::NotFoundError(_) => 404,
            CupomError::ValidationError(_) => 400,
            CupomError::UnexpectedError(_) => 500,
        }
    }
}

} // verus!
