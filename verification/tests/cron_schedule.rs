use hu::cron::{truncate_command, CronJob, Schedule, HU_MARKER};

#[test]
fn schedule_parse_hourly() {
    assert_eq!(Schedule::parse("hourly"), Some(Schedule::Hourly));
    assert_eq!(Schedule::parse("HOURLY"), Some(Schedule::Hourly));
}

#[test]
fn schedule_parse_daily() {
    assert_eq!(Schedule::parse("daily"), Some(Schedule::Daily));
}

#[test]
fn schedule_parse_weekly() {
    assert_eq!(Schedule::parse("weekly"), Some(Schedule::Weekly));
}

#[test]
fn schedule_parse_monthly() {
    assert_eq!(Schedule::parse("monthly"), Some(Schedule::Monthly));
}

#[test]
fn schedule_parse_reboot() {
    assert_eq!(Schedule::parse("reboot"), Some(Schedule::Reboot));
    assert_eq!(Schedule::parse("@reboot"), Some(Schedule::Reboot));
}

#[test]
fn schedule_parse_invalid() {
    assert_eq!(Schedule::parse("invalid"), None);
    assert_eq!(Schedule::parse(""), None);
}

#[test]
fn schedule_to_cron_hourly() {
    let cron = Schedule::Hourly.to_cron(35, 18, 11, 2);
    assert_eq!(cron, "35 * * * *");
}

#[test]
fn schedule_to_cron_daily() {
    let cron = Schedule::Daily.to_cron(35, 18, 11, 2);
    assert_eq!(cron, "35 18 * * *");
}

#[test]
fn schedule_to_cron_weekly() {
    let cron = Schedule::Weekly.to_cron(35, 18, 11, 2);
    assert_eq!(cron, "35 18 * * 2");
}

#[test]
fn schedule_to_cron_monthly() {
    let cron = Schedule::Monthly.to_cron(35, 18, 11, 2);
    assert_eq!(cron, "35 18 11 * *");
}

#[test]
fn schedule_to_cron_reboot() {
    let cron = Schedule::Reboot.to_cron(35, 18, 11, 2);
    assert_eq!(cron, "@reboot");
}

#[test]
fn schedule_display_name() {
    assert_eq!(Schedule::Hourly.display_name(), "hourly");
    assert_eq!(Schedule::Daily.display_name(), "daily");
    assert_eq!(Schedule::Weekly.display_name(), "weekly");
    assert_eq!(Schedule::Monthly.display_name(), "monthly");
    assert_eq!(Schedule::Reboot.display_name(), "reboot");
}

#[test]
fn cron_job_matches() {
    let job = CronJob {
        expression: "35 18 * * *".to_string(),
        command: "hu gh sync ~/Projects/docs".to_string(),
        schedule_name: Some("daily".to_string()),
        is_hu_job: true,
    };
    assert!(job.matches("gh sync"));
    assert!(job.matches("docs"));
    assert!(!job.matches("nonexistent"));
}

#[test]
fn cron_job_describe_time_hourly() {
    let job = CronJob {
        expression: "35 * * * *".to_string(),
        command: "test".to_string(),
        schedule_name: None,
        is_hu_job: false,
    };
    assert_eq!(job.describe_time(), ":35 every hour");
}

#[test]
fn cron_job_describe_time_daily() {
    let job = CronJob {
        expression: "35 18 * * *".to_string(),
        command: "test".to_string(),
        schedule_name: None,
        is_hu_job: false,
    };
    assert_eq!(job.describe_time(), "18:35 daily");
}

#[test]
fn cron_job_describe_time_weekly() {
    let job = CronJob {
        expression: "35 18 * * 2".to_string(),
        command: "test".to_string(),
        schedule_name: None,
        is_hu_job: false,
    };
    assert_eq!(job.describe_time(), "18:35 every Tue");
}

#[test]
fn cron_job_describe_time_monthly() {
    let job = CronJob {
        expression: "35 18 11 * *".to_string(),
        command: "test".to_string(),
        schedule_name: None,
        is_hu_job: false,
    };
    assert_eq!(job.describe_time(), "18:35 on 11th");
}

#[test]
fn cron_job_describe_time_reboot() {
    let job = CronJob {
        expression: "@reboot".to_string(),
        command: "test".to_string(),
        schedule_name: None,
        is_hu_job: false,
    };
    assert_eq!(job.describe_time(), "on reboot");
}

#[test]
fn cron_job_describe_time_ordinal_suffixes() {
    let cases = [
        ("35 18 1 * *", "18:35 on 1st"),
        ("35 18 2 * *", "18:35 on 2nd"),
        ("35 18 3 * *", "18:35 on 3rd"),
        ("35 18 4 * *", "18:35 on 4th"),
        ("35 18 21 * *", "18:35 on 21st"),
        ("35 18 22 * *", "18:35 on 22nd"),
        ("35 18 23 * *", "18:35 on 23rd"),
    ];
    for (expr, expected) in cases {
        let job = CronJob {
            expression: expr.to_string(),
            command: "test".to_string(),
            schedule_name: None,
            is_hu_job: false,
        };
        assert_eq!(job.describe_time(), expected, "Failed for {}", expr);
    }
}

#[test]
fn hu_marker_value() {
    assert_eq!(HU_MARKER, "# hu:");
}

#[test]
fn truncate_command_short() {
let cmd = "echo hello";
assert_eq!(truncate_command(cmd, 50), "echo hello");
}

#[test]
fn truncate_command_long() {
let cmd = "this is a very long command that should be truncated";
let truncated = truncate_command(cmd, 20);
assert!(truncated.ends_with("..."));
assert_eq!(truncated.len(), 20);
}

#[test]
fn truncate_command_exact() {
let cmd = "exact";
assert_eq!(truncate_command(cmd, 5), "exact");
}

#[test]
fn schedule_parse_in_add() {
    // Test that invalid schedule produces error message
    let result = Schedule::parse("invalid");
    assert!(result.is_none());
}

#[test]
fn schedule_parse_valid() {
    assert!(Schedule::parse("daily").is_some());
    assert!(Schedule::parse("hourly").is_some());
    assert!(Schedule::parse("weekly").is_some());
    assert!(Schedule::parse("monthly").is_some());
    assert!(Schedule::parse("reboot").is_some());
}

#[test]
fn description_of_generated_expressions() {
    let cases = [
        (Schedule::Hourly, ":05 every hour"),
        (Schedule::Daily, "3:05 daily"),
        (Schedule::Weekly, "3:05 every Tue"),
        (Schedule::Monthly, "3:05 on 22nd"),
        (Schedule::Reboot, "on reboot"),
    ];
    for (s, expected) in cases {
        let job = CronJob {
            expression: s.to_cron(5, 3, 22, 2),
            command: "true".to_string(),
            schedule_name: None,
            is_hu_job: false,
        };
        assert_eq!(job.describe_time(), expected);
    }
}
