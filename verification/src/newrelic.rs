//! New Relic incidents and issues.

use vstd::prelude::*;

verus! {

/// New Relic incident
#[derive(Debug, Clone)]
pub struct Incident {
    /// Incident ID
    pub incident_id: String,
    /// Title
    pub title: String,
    /// Priority (CRITICAL, HIGH, MEDIUM, LOW)
    pub priority: String,
    /// State (CREATED, ACTIVATED, CLOSED)
    pub state: String,
    /// Account ID
    pub account_ids: Vec<i64>,
    /// Created at timestamp
    pub created_at: Option<i64>,
    /// Closed at timestamp
    pub closed_at: Option<i64>,
}

/// New Relic issue (groups incidents)
#[derive(Debug, Clone)]
pub struct Issue {
    /// Issue ID
    pub issue_id: String,
    /// Title
    pub title: Vec<String>,
    /// Priority
    pub priority: String,
    /// State
    pub state: String,
    /// Entity names
    pub entity_names: Vec<String>,
    /// Created at
    pub created_at: Option<i64>,
    /// Closed at
    pub closed_at: Option<i64>,
    /// Activated at
    pub activated_at: Option<i64>,
}

/// Output format
#[derive(Debug, Clone, Copy, PartialEq, Eq, Structural)]
pub enum OutputFormat {
    Table,
    Json,
}

impl Default for OutputFormat {
    fn default() -> (res: Self)
        ensures
            res == OutputFormat::Table,
    {
        OutputFormat::Table
    }
}

} // verus!
