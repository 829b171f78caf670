//! Supporting key-management pieces: shared secrets with certificates,
//! protected secret storage, session states, and key validation.

pub mod kms;
pub mod secure;
pub mod tls;
pub mod validation;
