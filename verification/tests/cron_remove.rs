use hu::cron::{invalid_schedule_message, job_row, plan_remove, removal_preview, truncate_ok_exec, CronJob, RemovePlan};

fn job(expr: &str, cmd: &str, name: Option<&str>, hu: bool) -> CronJob {
    CronJob {
        expression: expr.to_string(),
        command: cmd.to_string(),
        schedule_name: name.map(|s| s.to_string()),
        is_hu_job: hu,
    }
}

#[test]
fn removal_plans() {
    let jobs = vec![job("0 * * * *", "backup db", None, false), job("5 1 * * *", "sync", None, true), job("1 1 * * *", "backup files", None, false)];
    assert!(matches!(plan_remove(&jobs, "nothing", false, false), RemovePlan::NothingMatches));
    match plan_remove(&jobs, "backup", false, false) {
        RemovePlan::Confirm(ps) => assert_eq!(ps, vec![0, 2]),
        other => panic!("expected a confirmation, got {:?}", other),
    }
    assert!(matches!(plan_remove(&jobs, "backup", true, false), RemovePlan::Remove));
    assert!(matches!(plan_remove(&jobs, "backup", false, true), RemovePlan::Remove));
    assert_eq!(
        removal_preview(&jobs, &vec![0, 2]),
        vec!["Will remove 2 job(s):", "  - 0 * * * * backup db", "  - 1 1 * * * backup files", "\nUse --force to confirm removal"]
    );
}

#[test]
fn schedule_message_and_rows() {
    assert_eq!(invalid_schedule_message("often"), "Invalid schedule 'often'. Use: hourly, daily, weekly, monthly, reboot");
    assert_eq!(job_row(0, &job("35 18 * * *", "echo hi", Some("daily"), true)), vec!["1", "daily", "18:35 daily", "echo hi", "hu"]);
    let long = "x".repeat(60);
    let row = job_row(4, &job("@reboot", &long, None, false));
    assert_eq!(row[0], "5");
    assert_eq!(row[1], "-");
    assert_eq!(row[2], "on reboot");
    assert_eq!(row[3], format!("{}...", "x".repeat(47)));
    assert_eq!(row[4], "");
}

#[test]
fn where_commands_can_be_cut() {
    assert!(truncate_ok_exec("short", 2));
    assert!(truncate_ok_exec("abcdefgh", 5));
    assert!(!truncate_ok_exec("abcdefgh", 2));
    assert!(!truncate_ok_exec("a\u{e9}bcdef", 5));
    assert!(truncate_ok_exec("a\u{e9}bcdef", 6));
}
