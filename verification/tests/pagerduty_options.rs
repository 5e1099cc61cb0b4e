use hu::pagerduty::{alert_statuses, ensure_configured, oncall_filters, IncidentOptions, IncidentStatus, OncallOptions, PagerDutyConfig};

#[test]
fn ensure_configured_fails_without_token() {
    let config = PagerDutyConfig::default();
    let result = ensure_configured(&config);
    assert!(result.is_err());
    assert!(result.unwrap_err().to_string().contains("not configured"));
}

#[test]
fn ensure_configured_succeeds_with_token() {
    let config = PagerDutyConfig {
        api_token: Some("test-token".to_string()),
        ..Default::default()
    };
    let result = ensure_configured(&config);
    assert!(result.is_ok());
}

#[test]
fn oncall_options_default() {
    let opts = OncallOptions::default();
    assert!(opts.policy_id.is_none());
    assert!(opts.schedule_id.is_none());
}

#[test]
fn incident_options_default() {
    let opts = IncidentOptions::default();
    assert_eq!(opts.limit, 25);
    assert_eq!(opts.statuses.len(), 2);
}

#[test]
fn alert_statuses_and_filters() {
    assert_eq!(alert_statuses(), vec![IncidentStatus::Triggered, IncidentStatus::Acknowledged]);
    let opts = OncallOptions { policy_id: Some("P1".to_string()), schedule_id: None };
    assert_eq!(oncall_filters(&opts), (None, Some(vec!["P1".to_string()])));
    let err = ensure_configured(&PagerDutyConfig::default()).unwrap_err();
    assert!(err.starts_with("PagerDuty not configured."));
}
