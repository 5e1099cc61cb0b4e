use hu::gh::{
    ci_status_from, clean_ci_line, failures_report, parse_test_failures, prs_table, repo_full_name,
    split_repo, status_icon, CheckRun, CiStatus, PullRequest, TestFailure,
};

fn run(status: Option<&str>, conclusion: Option<&str>) -> CheckRun {
    CheckRun { status: status.map(|s| s.to_string()), conclusion: conclusion.map(|s| s.to_string()) }
}

fn pr(title: &str, url: &str, ci: Option<CiStatus>) -> PullRequest {
    PullRequest {
        number: 1,
        title: title.to_string(),
        html_url: url.to_string(),
        state: "open".to_string(),
        repo_full_name: "o/r".to_string(),
        created_at: String::new(),
        updated_at: String::new(),
        ci_status: ci,
    }
}

#[test]
fn ci_status_from_commit_state_alone() {
    assert_eq!(ci_status_from("success", &None), CiStatus::Success);
    assert_eq!(ci_status_from("pending", &None), CiStatus::Pending);
    assert_eq!(ci_status_from("failure", &None), CiStatus::Failed);
    assert_eq!(ci_status_from("error", &None), CiStatus::Failed);
    assert_eq!(ci_status_from("weird", &None), CiStatus::Unknown);
}

#[test]
fn ci_status_from_check_runs() {
    assert_eq!(ci_status_from("pending", &Some(vec![])), CiStatus::Pending);
    assert_eq!(ci_status_from("success", &Some(vec![])), CiStatus::Success);
    let done_ok = run(Some("completed"), Some("success"));
    let failed = run(Some("completed"), Some("failure"));
    let running = run(Some("in_progress"), None);
    let skipped = run(Some("completed"), Some("skipped"));
    assert_eq!(ci_status_from("success", &Some(vec![run(Some("completed"), Some("success")), failed])), CiStatus::Failed);
    assert_eq!(ci_status_from("success", &Some(vec![done_ok, running])), CiStatus::Pending);
    assert_eq!(ci_status_from("failure", &Some(vec![run(Some("completed"), Some("success"))])), CiStatus::Success);
    assert_eq!(ci_status_from("failure", &Some(vec![skipped])), CiStatus::Failed);
}

#[test]
fn repo_names() {
    assert_eq!(split_repo("org/repo"), Some(("org".to_string(), "repo".to_string())));
    assert_eq!(split_repo("org/repo/x"), None);
    assert_eq!(split_repo("repo"), None);
    let segs: Vec<String> = ["repos", "org", "repo", "issues", "1"].iter().map(|s| s.to_string()).collect();
    assert_eq!(repo_full_name(&segs), "org/repo");
    assert_eq!(repo_full_name(&vec!["repos".to_string(), "org".to_string()]), "org");
    assert_eq!(repo_full_name(&vec![]), "");
}

#[test]
fn icons_of_statuses() {
    assert_eq!(status_icon(Some(CiStatus::Success)), "\x1b[32m\u{2713}\x1b[0m");
    assert_eq!(status_icon(Some(CiStatus::Failed)), "\x1b[31m\u{2717}\x1b[0m");
    assert_eq!(status_icon(None), "\x1b[90m\u{25cb}\x1b[0m");
}

#[test]
fn table_layout() {
    let prs = vec![pr("Fix the thing", "https://x/1", Some(CiStatus::Pending))];
    let lines = prs_table(&prs, 40);
    assert_eq!(lines.len(), 3);
    let tw = 40 - 11 - 11;
    let tw = if tw > 20 { tw } else { 20 };
    assert_eq!(lines[0], format!("\u{250c}\u{2500}\u{2500}\u{2500}\u{252c}{}\u{252c}{}\u{2510}", "\u{2500}".repeat(tw + 2), "\u{2500}".repeat(13)));
    assert_eq!(
        lines[1],
        format!("\u{2502} \x1b[33m\u{25d0}\x1b[0m \u{2502} {:<w$} \u{2502} \x1b[90mhttps://x/1\x1b[0m \u{2502}", "Fix the thing", w = tw)
    );
    let wide = prs_table(&prs, 200);
    assert!(wide[1].contains(&format!("{:<178}", "Fix the thing")));
    let empty = prs_table(&vec![], 80);
    assert_eq!(empty.len(), 2);
}

#[test]
fn clean_ci_lines() {
    assert_eq!(clean_ci_line("2026-01-27T18:51:46.1029380Z   hello  "), "hello");
    assert_eq!(clean_ci_line("  plain "), "plain");
}

const LOGS: &str = "2026-01-27T18:51:46.1029380Z Failures:\n\
2026-01-27T18:51:46.1029380Z \n\
2026-01-27T18:51:46.1029380Z   1) User validates email\n\
2026-01-27T18:51:46.1029380Z      Failure/Error: expect(user).to be_valid\n\
2026-01-27T18:51:46.1029380Z        expected valid? to be truthy, got false\n\
2026-01-27T18:51:46.1029380Z      # ./spec/models/user_spec.rb:10\n\
2026-01-27T18:51:46.1029380Z   2) Order totals\n\
2026-01-27T18:51:46.1029380Z      Failure/Error: total = order.total\n\
2026-01-27T18:51:46.1029380Z      # ./spec/models/order_spec.rb:5\n\
2026-01-27T18:51:46.1029380Z Failed examples:\n\
2026-01-27T18:51:46.1029380Z rspec ./spec/models/user_spec.rb:10 # User validates email\n\
2026-01-27T18:51:46.1029380Z rspec ./spec/models/order_spec.rb:5 # Order totals\n\
2026-01-27T18:51:46.1029380Z rspec ./spec/models/user_spec.rb:10 # again\n\
2026-01-27T18:51:46.1029380Z rspec ./spec/models/extra_spec.rb:1 # extra\n";

#[test]
fn failures_from_rspec_logs() {
    let fs = parse_test_failures(LOGS);
    let got: Vec<(&str, &str)> = fs.iter().map(|f| (f.spec_file.as_str(), f.failure_text.as_str())).collect();
    assert_eq!(
        got,
        vec![
            ("./spec/models/user_spec.rb:10", "expect(user).to be_valid\nexpected valid? to be truthy, got false"),
            ("./spec/models/order_spec.rb:5", "total = order.total"),
            ("./spec/models/extra_spec.rb:1", "Test failed"),
        ]
    );
    assert!(parse_test_failures("nothing here").is_empty());
}

#[test]
fn failure_report_text() {
    let fs = vec![TestFailure { spec_file: "./spec/a_spec.rb:1".to_string(), failure_text: "boom".to_string() }];
    assert_eq!(
        failures_report(&fs),
        "\n# Test Failures\n\n## ./spec/a_spec.rb:1\n\n```\nboom\n```\n\n# Rerun Commands\n\n```bash\nbundle exec rspec ./spec/a_spec.rb:1\n```\n"
    );
}
