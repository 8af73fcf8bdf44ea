//! The first form of the coupon endpoints, under their earlier name.

pub mod cupom_controller;
pub mod cupom_repository;
pub mod model;

pub use self::cupom_controller::{Code, Id};
pub use self::cupom_repository::Fields;
pub use self::model::{Cupom, CupomError, CupomInsert, CupomRequest, CupomResponse};
