//! Shared utilities: access to the system clock.

pub mod time_utils;
