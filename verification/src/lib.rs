//! Access gate for a coupon service: session issuance against a static API key,
//! an opaque bearer credential, and the per-request validation decisions,
//! together with the plain data and rules of the coupon endpoints behind it.

pub mod authentication;
pub mod configuration;
pub mod coupon;
pub mod cupom;
pub mod login;
pub mod routes;
pub mod startup;
