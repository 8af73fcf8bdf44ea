//! The data of a cupom.

pub mod cupom;

pub use self::cupom::{Cupom, CupomError, CupomInsert, CupomRequest, CupomResponse};
