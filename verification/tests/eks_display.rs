use hu::eks::{
    age_from, list_request, pod_row, pod_table_header, status_color, ContainerStatus, OutputFormat,
    PhaseColor, Pod, PodItem, PodMetadata, PodSpec, PodStatus,
};

fn item(name: &str, ns: &str, ts: Option<&str>, node: Option<&str>, cs: Vec<(bool, u32)>) -> PodItem {
    PodItem {
        metadata: PodMetadata {
            name: name.to_string(),
            namespace: ns.to_string(),
            creation_timestamp: ts.map(|s| s.to_string()),
        },
        spec: node.map(|n| PodSpec { node_name: Some(n.to_string()), containers: vec![] }),
        status: PodStatus {
            phase: "Running".to_string(),
            container_statuses: cs
                .into_iter()
                .enumerate()
                .map(|(i, (ready, restart_count))| ContainerStatus {
                    name: format!("c{}", i),
                    ready,
                    restart_count,
                })
                .collect(),
        },
    }
}

#[test]
fn status_color_running() {
    assert_eq!(status_color("Running"), PhaseColor::Green);
}

#[test]
fn status_color_pending() {
    assert_eq!(status_color("Pending"), PhaseColor::Yellow);
}

#[test]
fn status_color_succeeded() {
    assert_eq!(status_color("Succeeded"), PhaseColor::Cyan);
}

#[test]
fn status_color_failed() {
    assert_eq!(status_color("Failed"), PhaseColor::Red);
}

#[test]
fn status_color_unknown() {
    assert_eq!(status_color("Unknown"), PhaseColor::DarkGrey);
}

#[test]
fn status_color_other() {
    assert_eq!(status_color("CrashLoopBackOff"), PhaseColor::White);
}

#[test]
fn parse_pod_list() {
    let pod = item("my-pod", "default", Some("2026-01-01T00:00:00Z"), None, vec![(true, 2)]).to_pod();
    assert_eq!(pod.name, "my-pod");
    assert_eq!(pod.namespace, "default");
    assert_eq!(pod.status, "Running");
    assert_eq!(pod.ready, "1/1");
    assert_eq!(pod.restarts, 2);
}

#[test]
fn parse_pod_list_multiple_containers() {
    let pod = item("multi-container", "prod", None, None, vec![(true, 1), (false, 3)]).to_pod();
    assert_eq!(pod.ready, "1/2");
    assert_eq!(pod.restarts, 4);
}

#[test]
fn parse_pod_list_with_node() {
    let pod = item("my-pod", "default", None, Some("node-abc123"), vec![]).to_pod();
    assert_eq!(pod.node, Some("node-abc123".to_string()));
}

#[test]
fn parse_pod_list_no_node() {
    let mut it = item("pending-pod", "default", None, None, vec![]);
    it.status.phase = "Pending".to_string();
    let pod = it.to_pod();
    assert!(pod.node.is_none());
}

#[test]
fn age_from_days_hours_minutes_seconds() {
    assert_eq!(age_from((0, 0), (2 * 86400 + 5, 0)), "2d");
    assert_eq!(age_from((0, 0), (3 * 3600 + 59, 0)), "3h");
    assert_eq!(age_from((0, 0), (61, 0)), "1m");
    assert_eq!(age_from((0, 0), (59, 999_999_999)), "59s");
    assert_eq!(age_from((100, 0), (40, 0)), "-60s");
}

#[test]
fn age_from_rounds_toward_zero() {
    assert_eq!(age_from((10, 500_000_000), (11, 0)), "0s");
    assert_eq!(age_from((11, 0), (10, 500_000_000)), "0s");
    assert_eq!(age_from((0, 900_000_000), (86400, 800_000_000)), "23h");
}

#[test]
fn age_string_of_a_parsed_timestamp() {
    let pod = item("p", "d", Some("2000-01-01T00:00:00Z"), None, vec![]).to_pod();
    assert!(pod.age.ends_with('d'));
}

#[test]
fn pod_rows_and_header() {
    let pod = Pod {
        name: "web-1".to_string(),
        namespace: "prod".to_string(),
        status: "Running".to_string(),
        ready: "1/1".to_string(),
        restarts: 7,
        age: "2d".to_string(),
        node: None,
    };
    assert_eq!(pod_row(&pod, false), vec!["web-1", "1/1", "Running", "7", "2d"]);
    assert_eq!(pod_row(&pod, true), vec!["prod", "web-1", "1/1", "Running", "7", "2d"]);
    assert_eq!(pod_table_header(false), vec!["NAME", "READY", "STATUS", "RESTARTS", "AGE"]);
    assert_eq!(pod_table_header(true).len(), 6);
}

#[test]
fn list_request_shows_namespace_column() {
    let r = list_request(Some("cms".to_string()), false, None, true);
    assert_eq!(r.format, OutputFormat::Json);
    assert!(!r.show_namespace);
    assert_eq!(r.config.namespace, Some("cms".to_string()));
    let r = list_request(None, false, Some("prod".to_string()), false);
    assert_eq!(r.format, OutputFormat::Table);
    assert!(r.show_namespace);
    assert_eq!(r.config.context, Some("prod".to_string()));
    assert!(list_request(Some("x".to_string()), true, None, false).show_namespace);
}
