//! Settings of the probe loop and of the reporters.

use vstd::prelude::*;

verus! {

/// Settings of the probe loop.
#[derive(Debug, Clone, Copy)]
pub struct TesterConfig {
    /// Number of accounts to keep deployed.
    pub acc_count: usize,
    /// Seconds between two rounds.
    pub tr_interval: u64,
    /// Number of transfers in each round.
    pub tr_count: u32,
}

/// Settings of the reporters.
#[derive(Debug, Clone)]
pub struct ReporterConfig {
    /// Address that the reports are posted to.
    pub web_hook: String,
    /// Seconds between two health summaries.
    pub reports_interval: u64,
    /// Seconds between two looks at the failure counter.
    pub fails_reports_interval: u64,
}

impl ReporterConfig {
    /// The pause before each report of the given cadence: the failure
    /// interval for the failure reporter, the health interval otherwise.
    pub fn interval(&self, only_errors: bool) -> (secs: u64)
        ensures
            secs == if only_errors {
                self.fails_reports_interval
            } else {
                self.reports_interval
            },
    {
        if only_errors {
            self.fails_reports_interval
        } else {
            self.reports_interval
        }
    }
}

} // verus!
