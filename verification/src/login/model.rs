//! The data of a login.

pub mod login;
pub mod role;

pub use self::login::{LoginError, LoginRequest};
pub use self::role::Role;
