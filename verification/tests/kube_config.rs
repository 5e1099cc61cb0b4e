use hu::kube::{
    apply_cluster, choose_pod, empty_kubeconfig, get_pods, log_prefix, pod_exec_args, prompt_label,
    short_id, tail_log_args, token_exec_args, upsert, ClusterData, KubeconfigCluster, PodChoice,
};

fn cluster(name: &str, server: &str) -> KubeconfigCluster {
    KubeconfigCluster {
        name: name.to_string(),
        cluster: ClusterData { certificate_authority_data: "ca".to_string(), server: server.to_string() },
    }
}

fn servers(v: &[KubeconfigCluster]) -> Vec<(String, String)> {
    v.iter().map(|c| (c.name.clone(), c.cluster.server.clone())).collect()
}

#[test]
fn upsert_replaces_first_of_name_or_appends() {
    let mut v = vec![cluster("a", "1"), cluster("b", "2"), cluster("a", "3")];
    upsert(&mut v, cluster("a", "9"));
    assert_eq!(servers(&v), servers(&[cluster("a", "9"), cluster("b", "2"), cluster("a", "3")]));
    upsert(&mut v, cluster("c", "4"));
    assert_eq!(v.len(), 4);
    assert_eq!(v[3].name, "c");
}

#[test]
fn upsert_twice_is_upsert_once() {
    let mut once = vec![cluster("a", "1")];
    upsert(&mut once, cluster("b", "2"));
    let mut twice = vec![cluster("a", "1")];
    upsert(&mut twice, cluster("b", "2"));
    upsert(&mut twice, cluster("b", "2"));
    assert_eq!(servers(&once), servers(&twice));
}

#[test]
fn new_kubeconfig_is_empty() {
    let k = empty_kubeconfig();
    assert_eq!(k.api_version, "v1");
    assert_eq!(k.kind, "Config");
    assert!(k.clusters.is_empty() && k.users.is_empty() && k.contexts.is_empty());
    assert_eq!(k.current_context, "");
}

#[test]
fn apply_cluster_adds_all_entries() {
    let mut k = empty_kubeconfig();
    let arn = "arn:aws:eks:us-east-1:1:cluster/dev";
    apply_cluster(&mut k, arn, "https://x", "CA", "dev", Some("eks"), "us-east-1");
    assert_eq!(k.current_context, arn);
    assert_eq!(k.clusters.len(), 1);
    assert_eq!(k.clusters[0].cluster.server, "https://x");
    assert_eq!(k.users[0].user.exec_config.command, "aws");
    assert_eq!(k.users[0].user.exec_config.interactive_mode, Some("Never".to_string()));
    assert_eq!(
        k.users[0].user.exec_config.args,
        vec!["--region", "us-east-1", "eks", "get-token", "--cluster-name", "dev", "--output", "json", "--profile", "eks"]
    );
    assert_eq!(k.contexts[0].context.user, arn);
    apply_cluster(&mut k, arn, "https://y", "CA", "dev", None, "us-east-1");
    assert_eq!(k.clusters.len(), 1);
    assert_eq!(k.clusters[0].cluster.server, "https://y");
    assert_eq!(k.users[0].user.exec_config.args.len(), 8);
}

#[test]
fn token_args_without_profile() {
    assert_eq!(
        token_exec_args("eu-west-1", "c", None),
        vec!["--region", "eu-west-1", "eks", "get-token", "--cluster-name", "c", "--output", "json"]
    );
}

#[test]
fn pods_from_listing() {
    let out = "web-1   1/1 Running 0 1d\napi-2 1/1 Running 0 1d\nweb-3 0/1 Pending 0 1m\n";
    assert_eq!(get_pods(Some(out), "web"), vec!["web-1", "web-3"]);
    assert!(get_pods(None, "web").is_empty());
    assert!(get_pods(Some(""), "web").is_empty());
}

#[test]
fn pod_session_texts() {
    assert_eq!(short_id("web-7f9c4"), "7f9c4");
    assert_eq!(short_id("web-abcdef"), "bcdef");
    assert_eq!(short_id("ab"), "ab");
    assert_eq!(log_prefix("pod-12345"), "[12345]");
    assert_eq!(prompt_label("prod", "web", 2), "prod-web-2");
    let args = pod_exec_args("web-1", "cms", "prod", "E", "web", 1);
    assert_eq!(args.len(), 15);
    assert_eq!(args[7], "EKS_ENV=prod");
    assert_eq!(args[9], "EKS_POD_NUM=1");
    assert_eq!(args[10], "EKS_LABEL=prod-web-1");
    assert_eq!(
        args[14],
        "export PS1=\"E \\[\\033[1;36m\\]prod-web-1\\[\\033[0m\\] $ \"; exec bash --norc --noprofile"
    );
    assert_eq!(
        tail_log_args("p", "n", "/var/log/x"),
        vec!["exec", "p", "-n", "n", "--", "tail", "-f", "/var/log/x"]
    );
}

#[test]
fn choosing_a_pod() {
    assert_eq!(choose_pod(0, true, Some(1)), PodChoice::NoPods);
    assert_eq!(choose_pod(2, true, Some(1)), PodChoice::TailLogs);
    assert_eq!(choose_pod(2, false, None), PodChoice::ShowNextSteps);
    assert_eq!(choose_pod(2, false, Some(0)), PodChoice::InvalidNumber);
    assert_eq!(choose_pod(2, false, Some(3)), PodChoice::InvalidNumber);
    assert_eq!(choose_pod(2, false, Some(2)), PodChoice::Exec(1));
}

#[test]
fn apply_same_cluster_twice_changes_nothing() {
    let mut k = empty_kubeconfig();
    apply_cluster(&mut k, "arn:b", "https://z", "CB", "prod", None, "eu-west-1");
    apply_cluster(&mut k, "arn:a", "https://x", "CA", "dev", Some("p"), "eu-west-1");
    let once = format!("{:?}", k);
    apply_cluster(&mut k, "arn:a", "https://x", "CA", "dev", Some("p"), "eu-west-1");
    assert_eq!(format!("{:?}", k), once);
}
