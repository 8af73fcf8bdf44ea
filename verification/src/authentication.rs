//! The access gate: credential codec, session store, issuer and validator.

pub mod auth;
pub mod codec;
pub mod laws;
pub mod model;
pub mod store;
pub mod text;

pub use self::auth::{
    authenticate, issue, validate, validator, verdict, ApiKeyRequest, Bearer, IssueError,
    PendingSession, ValidationError, ValidationStep, Verdict, SESSION_TTL_SECONDS,
};
pub use self::codec::{decode, encode, try_encode, CodecError};
pub use self::store::{SessionStore, StoreError};
