//! Roles of the callers of the service.

pub mod role;

pub use self::role::Role;
