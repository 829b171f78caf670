//! Comparative-analysis vocabulary shared with reporting tooling.

pub mod comparative;
