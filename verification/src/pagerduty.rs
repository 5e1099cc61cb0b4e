//! PagerDuty options and the configuration check that guards every call.

use vstd::prelude::*;

verus! {

/// The status of an incident.
#[derive(Debug, Clone, Copy, PartialEq, Eq, Structural)]
pub enum IncidentStatus {
    Triggered,
    Acknowledged,
    Resolved,
}

/// The PagerDuty API credentials.
#[derive(Debug, Clone)]
pub struct PagerDutyConfig {
    pub api_token: Option<String>,
}

impl Default for PagerDutyConfig {
    fn default() -> (res: Self)
        ensures
            res.api_token is None,
    {
        PagerDutyConfig { api_token: None }
    }
}

impl PagerDutyConfig {
    /// Whether an API token is present.
    pub fn is_configured(&self) -> (res: bool)
        ensures
            res == self.api_token is Some,
    {
        self.api_token.is_some()
    }
}

/// Options for listing on-calls
#[derive(Debug)]
pub struct OncallOptions {
    /// Filter by escalation policy ID
    pub policy_id: Option<String>,
    /// Filter by schedule ID
    pub schedule_id: Option<String>,
}

impl Default for OncallOptions {
    fn default() -> (res: Self)
        ensures
            res.policy_id is None,
            res.schedule_id is None,
    {
        OncallOptions { policy_id: None, schedule_id: None }
    }
}

/// Options for listing incidents
#[derive(Debug)]
pub struct IncidentOptions {
    /// Filter by statuses
    pub statuses: Vec<IncidentStatus>,
    /// Maximum number of results
    pub limit: usize,
}

impl Default for IncidentOptions {
    fn default() -> (res: Self)
        ensures
            res.statuses@ == seq![IncidentStatus::Triggered, IncidentStatus::Acknowledged],
            res.limit == 25,
    {
        IncidentOptions { statuses: vec![IncidentStatus::Triggered, IncidentStatus::Acknowledged], limit: 25 }
    }
}

/// The statuses the alerts listing asks for: triggered and acknowledged.
pub fn alert_statuses() -> (res: Vec<IncidentStatus>)
    ensures
        res@ == seq![IncidentStatus::Triggered, IncidentStatus::Acknowledged],
{
    vec![IncidentStatus::Triggered, IncidentStatus::Acknowledged]
}

/// What an on-call listing filters by: the policy and schedule ids, each
/// as a one-element list when given.
pub fn oncall_filters(opts: &OncallOptions) -> (res: (Option<Vec<String>>, Option<Vec<String>>))
    ensures
        match (res.1, opts.policy_id) {
            (Some(v), Some(p)) => v@.len() == 1 && v@[0]@ == p@,
            (None, None) => true,
            _ => false,
        },
        match (res.0, opts.schedule_id) {
            (Some(v), Some(s)) => v@.len() == 1 && v@[0]@ == s@,
            (None, None) => true,
            _ => false,
        },
{
    let policy_ids = match &opts.policy_id {
        Some(p) => Some(vec![p.clone()]),
        None => None,
    };
    let schedule_ids = match &opts.schedule_id {
        Some(s) => Some(vec![s.clone()]),
        None => None,
    };
    (schedule_ids, policy_ids)
}

/// The error every call gives without a token.
pub const NOT_CONFIGURED: &'static str = "PagerDuty not configured. Run: hu pagerduty auth <token>\nOr set PAGERDUTY_API_TOKEN environment variable.";

/// Check if API is configured, return error if not
pub fn ensure_configured(config: &PagerDutyConfig) -> (res: Result<(), String>)
    ensures
        res is Ok <==> config.api_token is Some,
        res matches Err(e) ==> e@ == NOT_CONFIGURED@,
{
    if !config.is_configured() {
        return Err(NOT_CONFIGURED.to_string());
    }
    Ok(())
}

} // verus!
