//! Orchestration layer over heterogeneous HSM and managed-key-vault backends
//! for generating, retrieving, and operating on post-quantum cryptographic
//! keys, together with the surrounding key-management utilities.

pub mod adds;
pub mod analysis;
pub mod config;
pub mod crypto;
pub mod data_generator;
pub mod hsm;
pub mod kms;
pub mod kyber;
pub mod security;
pub mod strutil;
pub mod utils;
