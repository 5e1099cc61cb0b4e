use hu::eks::{KubectlConfig, OutputFormat, Pod, PodItem, PodMetadata, PodStatus};

#[test]
fn pod_debug() {
    let pod = Pod {
        name: "test-pod".to_string(),
        namespace: "default".to_string(),
        status: "Running".to_string(),
        ready: "1/1".to_string(),
        restarts: 0,
        age: "1d".to_string(),
        node: Some("node-1".to_string()),
    };
    let debug = format!("{:?}", pod);
    assert!(debug.contains("test-pod"));
}

#[test]
fn pod_clone() {
    let pod = Pod {
        name: "test-pod".to_string(),
        namespace: "default".to_string(),
        status: "Running".to_string(),
        ready: "1/1".to_string(),
        restarts: 0,
        age: "1d".to_string(),
        node: None,
    };
    let cloned = pod.clone();
    assert_eq!(cloned.name, pod.name);
}

#[test]
fn kubectl_config_default() {
    let config = KubectlConfig::default();
    assert!(config.context.is_none());
    assert!(config.namespace.is_none());
}

#[test]
fn output_format_default() {
    let format = OutputFormat::default();
    assert_eq!(format, OutputFormat::Table);
}

#[test]
fn age_string_no_timestamp() {
    let item = PodItem {
        metadata: PodMetadata {
            name: "test".to_string(),
            namespace: "default".to_string(),
            creation_timestamp: None,
        },
        spec: None,
        status: PodStatus {
            phase: "Running".to_string(),
            container_statuses: vec![],
        },
    };
    let pod = item.to_pod();
    assert_eq!(pod.age, "-");
}

#[test]
fn age_string_invalid_timestamp() {
    let item = PodItem {
        metadata: PodMetadata {
            name: "test".to_string(),
            namespace: "default".to_string(),
            creation_timestamp: Some("not-a-date".to_string()),
        },
        spec: None,
        status: PodStatus {
            phase: "Running".to_string(),
            container_statuses: vec![],
        },
    };
    let pod = item.to_pod();
    assert_eq!(pod.age, "-");
}

#[test]
fn kubectl_config_from_options() {
    let config = KubectlConfig {
        context: Some("prod".to_string()),
        namespace: Some("default".to_string()),
    };
    assert_eq!(config.context, Some("prod".to_string()));
    assert_eq!(config.namespace, Some("default".to_string()));
}
