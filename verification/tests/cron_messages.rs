use hu::cron::{format_added_text, format_removed_text, CronJob};

#[test]
fn format_added_basic() {
    let job = CronJob {
        expression: "35 18 * * *".to_string(),
        command: "hu gh sync ~/docs".to_string(),
        schedule_name: Some("daily".to_string()),
        is_hu_job: true,
    };
    let output = format_added_text(&job);
    assert!(output.contains("\u{2713}")); // checkmark
    assert!(output.contains("daily"));
    assert!(output.contains("35 18 * * *"));
}

#[test]
fn format_removed_empty() {
    let jobs: Vec<CronJob> = vec![];
    let output = format_removed_text(&jobs);
    assert!(output.contains("No matching jobs"));
}

#[test]
fn format_removed_single() {
    let jobs = vec![CronJob {
        expression: "35 18 * * *".to_string(),
        command: "test".to_string(),
        schedule_name: None,
        is_hu_job: false,
    }];
    let output = format_removed_text(&jobs);
    assert!(output.contains("Removed 1 job"));
    assert!(!output.contains("jobs:")); // singular
}

#[test]
fn format_removed_multiple() {
    let jobs = vec![
        CronJob {
            expression: "0 * * * *".to_string(),
            command: "job1".to_string(),
            schedule_name: None,
            is_hu_job: false,
        },
        CronJob {
            expression: "30 12 * * *".to_string(),
            command: "job2".to_string(),
            schedule_name: None,
            is_hu_job: false,
        },
    ];
    let output = format_removed_text(&jobs);
    assert!(output.contains("Removed 2 jobs"));
    assert!(output.contains("job1"));
    assert!(output.contains("job2"));
}

#[test]
fn format_added_no_schedule_name() {
    let job = CronJob {
        expression: "0 0 * * *".to_string(),
        command: "test".to_string(),
        schedule_name: None,
        is_hu_job: false,
    };
    let output = format_added_text(&job);
    assert!(output.contains("cron job")); // fallback
}
