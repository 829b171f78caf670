//! Data model of the algorithm-comparison reports.  The timing measurements
//! themselves are produced by external benchmarking; this core shares only
//! the vocabulary of the recommendations they feed.

use vstd::prelude::*;

verus! {

/// Security classification of an algorithm family.
#[derive(Clone, Copy, Debug, PartialEq, Eq, Structural)]
pub enum SecurityLevel {
    Classical128,
    Classical256,
    PostQuantum128,
    PostQuantum256,
}

/// Residual-risk classification of a recommendation.
#[derive(Clone, Copy, Debug, PartialEq, Eq, Structural)]
pub enum RiskLevel {
    Low,
    Medium,
    High,
    Critical,
}

/// One recommendation produced by a comparison run.
#[derive(Clone, Debug)]
pub struct FinancialRecommendation {
    pub scenario: String,
    pub recommended_algorithm: String,
    pub justification: String,
    pub risk_level: RiskLevel,
}

} // verus!
