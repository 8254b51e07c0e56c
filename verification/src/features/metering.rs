//! Metering queries.

use vstd::prelude::*;

verus! {

/// Input of querying the request log.
#[derive(Debug, Clone, Default)]
pub struct QueryRequestLogs {
    pub alias: Option<String>,
    pub credential: Option<String>,
    pub only_failed: bool,
}

/// What a usage summary counts.
#[derive(Debug, Clone, Copy, PartialEq, Eq, Structural)]
pub enum UsageMetric {
    Requests,
    Tokens,
    Cost,
}

/// Input of querying the usage summary.
#[derive(Debug, Clone)]
pub struct QueryUsageSummary {
    pub days: u32,
    pub metric: UsageMetric,
}

} // verus!
