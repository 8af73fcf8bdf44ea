//! The earliest route of the service.

pub mod cupom;
