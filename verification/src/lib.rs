//! Verified core of a user identity and session service.
//!
//! The library covers credential validation, password hashing, token issuing
//! and validation, the verification-code workflow, and the session manager
//! that composes them over an identity store. Transports (HTTP, mail, real
//! persistence) sit outside and talk to this core through plain values.

pub mod converter;
pub mod errors;
pub mod forms;
pub mod hashing;
pub mod jwt;
pub mod model;
pub mod oauth;
pub mod session;
pub mod store;
pub mod validate;
