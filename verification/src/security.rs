//! Security self-checks: audit metrics over memory and protocol probes, and
//! the penetration-test harness.

pub mod audit;
pub mod penetration_tests;
