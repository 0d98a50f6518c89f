//! The settings a scan runs with.
use vstd::prelude::*;
use crate::session::Budget;

verus! {

/// Settings forwarded to the network collaborator as they are.
pub struct NetworkConfig {
    pub timeout_seconds: u64,
    pub user_agent: String,
    pub follow_redirects: bool,
}

pub struct Config {
    pub network: NetworkConfig,
    /// How many probes may run at once.
    pub concurrency: usize,
    pub plugin_path: String,
    pub payload_path: String,
    pub reports_path: String,
    /// The limits of every sandbox session.
    pub budget: Budget,
}

/// Why settings cannot be used.
#[derive(PartialEq, Eq, Structural, Clone, Copy, Debug)]
pub enum ConfigError {
    /// `concurrency` is zero.
    ZeroConcurrency,
    /// A sandbox limit is zero.
    MissingBudget,
}

impl Config {
    pub open spec fn wf(&self) -> bool {
        self.concurrency > 0 && self.budget.wf()
    }

    /// Accepts settings whose concurrency and sandbox limits are all positive.
    pub fn validate(&self) -> (r: Result<(), ConfigError>)
        ensures
            r is Ok <==> self.wf(),
            self.concurrency == 0 ==> r == Err::<(), ConfigError>(ConfigError::ZeroConcurrency),
            self.concurrency > 0 && !self.budget.wf() ==> r == Err::<(), ConfigError>(
                ConfigError::MissingBudget,
            ),
    {
        if self.concurrency == 0 {
            Err(ConfigError::ZeroConcurrency)
        } else if self.budget.max_steps == 0 || self.budget.max_millis == 0
            || self.budget.max_pages == 0 {
            Err(ConfigError::MissingBudget)
        } else {
            Ok(())
        }
    }
}

} // verus!
