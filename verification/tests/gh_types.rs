use hu::gh::{truncate, CiStatus, PullRequest, TestFailure, GREEN, RED, RESET, YELLOW};

#[test]
fn ci_status_default_is_unknown() {
    let status = CiStatus::default();
    assert_eq!(status, CiStatus::Unknown);
}

#[test]
fn ci_status_equality() {
    assert_eq!(CiStatus::Success, CiStatus::Success);
    assert_eq!(CiStatus::Pending, CiStatus::Pending);
    assert_eq!(CiStatus::Failed, CiStatus::Failed);
    assert_eq!(CiStatus::Unknown, CiStatus::Unknown);
    assert_ne!(CiStatus::Success, CiStatus::Failed);
}

#[test]
fn ci_status_clone() {
    let status = CiStatus::Success;
    let cloned = status;
    assert_eq!(status, cloned);
}

#[test]
fn ci_status_debug_format() {
    let debug_str = format!("{:?}", CiStatus::Pending);
    assert!(debug_str.contains("Pending"));
}

#[test]
fn test_failure_clone() {
    let failure = TestFailure {
        spec_file: "./spec/test_spec.rb:10".to_string(),
        failure_text: "expected true, got false".to_string(),
    };
    let cloned = failure.clone();
    assert_eq!(cloned.spec_file, failure.spec_file);
    assert_eq!(cloned.failure_text, failure.failure_text);
}

#[test]
fn test_failure_debug_format() {
    let failure = TestFailure {
        spec_file: "./spec/test_spec.rb:10".to_string(),
        failure_text: "error".to_string(),
    };
    let debug_str = format!("{:?}", failure);
    assert!(debug_str.contains("TestFailure"));
    assert!(debug_str.contains("spec_file"));
}

#[test]
fn pull_request_clone() {
    let pr = PullRequest {
        number: 123,
        title: "Test".to_string(),
        html_url: "https://github.com/a/b/pull/123".to_string(),
        state: "open".to_string(),
        repo_full_name: "a/b".to_string(),
        created_at: "2024-01-01T00:00:00Z".to_string(),
        updated_at: "2024-01-01T00:00:00Z".to_string(),
        ci_status: Some(CiStatus::Success),
    };
    let cloned = pr.clone();
    assert_eq!(cloned.number, pr.number);
    assert_eq!(cloned.ci_status, pr.ci_status);
}

#[test]
fn pull_request_debug_format() {
    let pr = PullRequest {
        number: 1,
        title: "T".to_string(),
        html_url: "u".to_string(),
        state: "open".to_string(),
        repo_full_name: "r".to_string(),
        created_at: "c".to_string(),
        updated_at: "u".to_string(),
        ci_status: None,
    };
    let debug_str = format!("{:?}", pr);
    assert!(debug_str.contains("PullRequest"));
}

#[test]
fn truncate_short_string() {
    assert_eq!(truncate("hello", 10), "hello");
}

#[test]
fn truncate_long_string() {
    assert_eq!(truncate("hello world", 8), "hello w…");
}

#[test]
fn truncate_exact_length() {
    assert_eq!(truncate("hello", 5), "hello");
}

#[test]
fn status_icons_render() {
    let _ = format!("{}✓{}", GREEN, RESET);
    let _ = format!("{}◐{}", YELLOW, RESET);
    let _ = format!("{}✗{}", RED, RESET);
}
