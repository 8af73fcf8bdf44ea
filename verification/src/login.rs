//! Login by role.

pub mod auth;
pub mod login_service;
pub mod model;

pub use self::auth::{verify_service_request, UserClaims};
pub use self::model::{LoginError, LoginRequest, Role};
