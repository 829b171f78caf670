//! Key-management building blocks: shared secrets, certificates, and the
//! in-memory key-management system.

pub mod kms;
