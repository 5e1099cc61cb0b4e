use hu::aws::discovery::{profile_report_segments, render_line, Paint};
use base64::Engine;
use hu::aws::discovery::{capabilities_from, discovery_summary, parse_aws_profiles, shown_profiles};
use hu::aws::ec2::{
    display_name, filter_instances, instance_passes, ssm_target, state_color, Ec2Filter, Ec2Instance,
    SsmTarget, StateColor,
};
use hu::aws::spawn::{
    cleanup_command, generate_random_port, generate_user_data, is_terminated, key_file_name,
    key_name_for, latest_image_id, managed_resources, port_from_hash, public_port_rule_description,
    running_public_ip, security_group_description, security_group_name_for, single_host_cidr,
    spawn_tags, ssh_command, user_data_text, SpawnedInstance,
};
use hu::aws::{IdentityInfo, IdentityType};

fn inst(id: &str, name: Option<&str>, state: &str, env: Option<&str>) -> Ec2Instance {
    Ec2Instance {
        instance_id: id.to_string(),
        name: name.map(|s| s.to_string()),
        instance_type: "t3.micro".to_string(),
        state: state.to_string(),
        private_ip: None,
        environment: env.map(|s| s.to_string()),
    }
}

fn filter(env: Option<&str>, name: Option<&str>, show_all: bool, stopped_only: bool) -> Ec2Filter {
    Ec2Filter {
        env: env.map(|s| s.to_string()),
        name_filter: name.map(|s| s.to_string()),
        show_all,
        stopped_only,
    }
}

#[test]
fn identity_from_user_arn() {
    let i = IdentityInfo::from_arn("arn:aws:iam::123456789012:user/alice", "123456789012");
    assert!(matches!(&i.identity_type, IdentityType::User(n) if n == "alice"));
    assert_eq!(i.kind_name(), "IAM User");
    assert_eq!(i.name(), "alice");
    assert_eq!(i.account, "123456789012");
}

#[test]
fn identity_from_assumed_role_arn() {
    let i = IdentityInfo::from_arn("arn:aws:sts::1:assumed-role/Admin/session-name", "1");
    assert!(matches!(&i.identity_type, IdentityType::AssumedRole(n) if n == "Admin"));
    assert_eq!(i.kind_name(), "Assumed Role");
    assert_eq!(i.name(), "Admin");
}

#[test]
fn identity_from_federated_and_unknown_arn() {
    let f = IdentityInfo::from_arn("arn:aws:sts::1:federated-user/bob", "1");
    assert_eq!(f.name(), "bob");
    assert_eq!(f.kind_name(), "Federated User");
    let u = IdentityInfo::from_arn("arn:aws:iam::1:root", "1");
    assert!(matches!(u.identity_type, IdentityType::Unknown));
    assert_eq!(u.name(), "unknown");
    assert_eq!(u.kind_name(), "Unknown");
}

#[test]
fn identity_takes_text_after_last_marker() {
    let i = IdentityInfo::from_arn("x:user/a:user/b", "1");
    assert_eq!(i.name(), "b");
}

#[test]
fn profiles_from_config_text() {
    let text = "[default]\nregion = us-east-1\n\n  [profile dev]  \n[profile prod]\n[sso-session x]\n[]\n";
    assert_eq!(parse_aws_profiles(text), vec!["default", "dev", "prod"]);
    assert!(parse_aws_profiles("").is_empty());
}

#[test]
fn capabilities_of_invalid_profile_are_empty() {
    let c = capabilities_from("p", None, Some(vec!["c".to_string()]), true, Some(3), Some(1));
    assert!(!c.valid);
    assert!(c.identity.is_none() && c.eks_clusters.is_none() && c.s3_bucket_count.is_none());
    let v = capabilities_from(
        "p",
        Some(("arn:aws:iam::1:user/al".to_string(), "1".to_string())),
        None,
        false,
        Some(3),
        None,
    );
    assert!(v.valid);
    assert_eq!(v.identity.as_ref().unwrap().name(), "al");
    assert_eq!(v.s3_bucket_count, Some(3));
    assert_eq!(v.ec2_accessible, Some(false));
}

#[test]
fn discovery_counts_and_filter() {
    let ok = capabilities_from("a", Some(("arn:u:user/x".to_string(), "1".to_string())), None, false, None, None);
    let bad = capabilities_from("b", None, None, false, None, None);
    let ok2 = capabilities_from("c", Some(("arn:u:user/y".to_string(), "1".to_string())), None, false, None, None);
    let all = vec![ok, bad, ok2];
    assert_eq!(discovery_summary(&all), (2, 1));
    assert_eq!(shown_profiles(&all, false), vec![0, 2]);
    assert_eq!(shown_profiles(&all, true), vec![0, 1, 2]);
}

#[test]
fn instance_filter_rules() {
    let f = filter(None, None, false, false);
    assert!(instance_passes(&f, &inst("i-1", Some("web"), "running", None)));
    assert!(!instance_passes(&f, &inst("i-2", Some("web"), "terminated", None)));
    assert!(!instance_passes(&f, &inst("i-3", None, "running", None)));
    let all = filter(None, None, true, false);
    assert!(instance_passes(&all, &inst("i-3", None, "terminated", None)));
    let stopped = filter(None, None, true, true);
    assert!(!instance_passes(&stopped, &inst("i-1", Some("web"), "running", None)));
    let env = filter(Some("prod"), None, false, false);
    assert!(instance_passes(&env, &inst("i-1", Some("web"), "running", Some("prod"))));
    assert!(!instance_passes(&env, &inst("i-1", Some("web"), "running", Some("dev"))));
    let name = filter(None, Some("WEB"), false, false);
    assert!(instance_passes(&name, &inst("i-1", Some("my-web-1"), "running", None)));
    assert!(!instance_passes(&name, &inst("i-1", Some("api"), "running", None)));
}

#[test]
fn filter_keeps_order() {
    let v = vec![
        inst("a", Some("x"), "running", None),
        inst("b", None, "running", None),
        inst("c", Some("y"), "stopped", None),
    ];
    let kept = filter_instances(v, &filter(None, None, false, false));
    let ids: Vec<&str> = kept.iter().map(|i| i.instance_id.as_str()).collect();
    assert_eq!(ids, vec!["a", "c"]);
}

#[test]
fn state_colors() {
    assert_eq!(state_color("running"), StateColor::Green);
    assert_eq!(state_color("stopped"), StateColor::Red);
    assert_eq!(state_color("pending"), StateColor::Yellow);
    assert_eq!(state_color("stopping"), StateColor::Yellow);
    assert_eq!(state_color("terminated"), StateColor::DarkGrey);
}

#[test]
fn name_column_cut_at_30_bytes() {
    assert_eq!(display_name(&None), "-");
    assert_eq!(display_name(&Some("short".to_string())), "short");
    let long = "a".repeat(31);
    assert_eq!(display_name(&Some(long)), format!("{}...", "a".repeat(27)));
    assert_eq!(display_name(&Some("b".repeat(30))), "b".repeat(30));
}

#[test]
fn ssm_target_choice() {
    let v = vec![inst("i-1", Some("web"), "running", None), inst("i-2", None, "stopped", None)];
    assert!(matches!(ssm_target(&v, 0), SsmTarget::InvalidNumber));
    assert!(matches!(ssm_target(&v, 3), SsmTarget::InvalidNumber));
    match ssm_target(&v, 1) {
        SsmTarget::Connect { label, instance_id } => {
            assert_eq!(label, "web");
            assert_eq!(instance_id, "i-1");
        }
        _ => panic!("expected a connection"),
    }
    match ssm_target(&v, 2) {
        SsmTarget::NotRunning { label, state } => {
            assert_eq!(label, "i-2");
            assert_eq!(state, "stopped");
        }
        _ => panic!("expected not running"),
    }
}

#[test]
fn ports_in_range() {
    assert_eq!(port_from_hash(0), 1024);
    assert_eq!(port_from_hash(64510), 65534);
    assert_eq!(port_from_hash(64511), 1024);
    let p = generate_random_port();
    assert!((1024..=65534).contains(&p));
}

#[test]
fn user_data_script_and_encoding() {
    let text = user_data_text(2222);
    assert_eq!(
        text,
        "#!/bin/bash\n# Configure SSH on custom port\nsed -i 's/#Port 22/Port 2222/' /etc/ssh/sshd_config\nsed -i 's/Port 22/Port 2222/' /etc/ssh/sshd_config\n# SELinux port context (Amazon Linux)\nsemanage port -a -t ssh_port_t -p tcp 2222 2>/dev/null || true\n# Restart SSH\nsystemctl restart sshd\n"
    );
    let encoded = generate_user_data(2222);
    assert_ne!(encoded, text);
    assert_eq!(encoded, base64::engine::general_purpose::STANDARD.encode(text.as_bytes()));
}

#[test]
fn security_group_texts() {
    assert_eq!(
        security_group_description(2222, &vec![]),
        "Temporary hu-spawned instance (SSH:2222)"
    );
    assert_eq!(
        security_group_description(2222, &vec![80, 443]),
        "Temporary hu-spawned instance (SSH:2222, Public:[80, 443])"
    );
    assert_eq!(key_name_for(1700000000), "hu-1700000000");
    assert_eq!(security_group_name_for(17), "hu-temp-17");
    assert_eq!(single_host_cidr("1.2.3.4"), "1.2.3.4/32");
    assert_eq!(public_port_rule_description(443), "Port 443 public");
    assert_eq!(key_file_name("hu-1"), "hu-1.pem");
    assert_eq!(cleanup_command("i-9"), "hu ec2 kill i-9");
}

#[test]
fn tags_of_spawned_instance() {
    let tags = spawn_tags(5, "hu-5", "sg-1", 2222, &vec![80, 443]);
    let expected = vec![
        ("Name", "hu-spawned-5"),
        ("hu-managed", "true"),
        ("hu-key-name", "hu-5"),
        ("hu-sg-id", "sg-1"),
        ("hu-ssh-port", "2222"),
        ("hu-public-ports", "80,443"),
    ];
    let got: Vec<(&str, &str)> = tags.iter().map(|(k, v)| (k.as_str(), v.as_str())).collect();
    assert_eq!(got, expected);
}

#[test]
fn cleanup_finds_resources_from_tags() {
    let tags = vec![
        (Some("Name".to_string()), Some("x".to_string())),
        (Some("hu-key-name".to_string()), Some("k1".to_string())),
        (Some("hu-sg-id".to_string()), Some("sg-1".to_string())),
        (Some("hu-key-name".to_string()), Some("k2".to_string())),
        (None, Some("ignored".to_string())),
    ];
    assert_eq!(managed_resources(&tags), (Some("k2".to_string()), Some("sg-1".to_string())));
    assert_eq!(managed_resources(&vec![]), (None, None));
}

#[test]
fn waiting_for_instances() {
    assert_eq!(running_public_ip("running", Some("1.2.3.4".to_string())), Some("1.2.3.4".to_string()));
    assert_eq!(running_public_ip("pending", Some("1.2.3.4".to_string())), None);
    assert_eq!(running_public_ip("running", None), None);
    assert!(is_terminated("terminated"));
    assert!(!is_terminated("shutting-down"));
}

#[test]
fn ssh_command_of_instance() {
    let i = SpawnedInstance {
        instance_id: "i-1".to_string(),
        public_ip: "1.2.3.4".to_string(),
        ssh_port: 2222,
        public_ports: vec![],
        key_name: "hu-1".to_string(),
        key_path: "/k/hu-1.pem".to_string(),
        security_group_id: "sg".to_string(),
    };
    assert_eq!(ssh_command(&i), "ssh -i /k/hu-1.pem -p 2222 ec2-user@1.2.3.4");
}

#[test]
fn newest_image_is_chosen() {
    let img = |d: Option<&str>, id: Option<&str>| (d.map(|s| s.to_string()), id.map(|s| s.to_string()));
    let images = vec![
        img(Some("2024-01-01T00:00:00Z"), Some("ami-old")),
        img(Some("2024-06-01T00:00:00Z"), Some("ami-new")),
        img(None, Some("ami-undated")),
        img(Some("2024-06-01T00:00:00Z"), Some("ami-new-too")),
    ];
    assert_eq!(latest_image_id(&images), Some("ami-new".to_string()));
    assert_eq!(latest_image_id(&vec![]), None);
    assert_eq!(latest_image_id(&vec![img(Some("2024"), None)]), None);
    assert_eq!(latest_image_id(&vec![img(None, Some("a")), img(Some(""), Some("b"))]), Some("a".to_string()));
}

#[test]
fn discovery_report_lines() {
    let valid = hu::aws::discovery::capabilities_from(
        "dev",
        Some(("arn:aws:sts::123:assumed-role/Admin/me".to_string(), "123".to_string())),
        Some(vec!["a".to_string(), "b".to_string()]),
        true,
        Some(4),
        None,
    );
    let expired = hu::aws::discovery::capabilities_from("old", None, None, false, None, None);
    let lines: Vec<String> =
        hu::aws::discovery::discovery_lines(&vec![valid, expired], true).iter().map(|l| strip_ansi(l)).collect();
    assert_eq!(
        lines,
        vec![
            "  Profile: dev",
            "    Account: 123",
            "    Identity: Admin (Assumed Role)",
            "    EKS: 2 clusters (a, b)",
            "    EC2: accessible",
            "    S3: 4 buckets",
            "    Pipelines: no access",
            "",
            "  Profile: old (EXPIRED)",
            "    Run: aws sso login --profile old",
            "",
        ]
    );
}

#[test]
fn discovery_report_hides_expired() {
    let expired = hu::aws::discovery::capabilities_from("old", None, None, false, None, None);
    assert!(hu::aws::discovery::discovery_lines(&vec![expired], false).is_empty());
}

#[test]
fn instance_tags_name_and_environment() {
    let tags = vec![
        (Some("Name".to_string()), Some("web".to_string())),
        (Some("Team".to_string()), Some("x".to_string())),
        (Some("Environment".to_string()), Some("prod".to_string())),
        (None, Some("ignored".to_string())),
    ];
    assert_eq!(
        hu::aws::ec2::instance_tags(&tags),
        (Some("web".to_string()), Some("prod".to_string()))
    );
    assert_eq!(hu::aws::ec2::instance_tags(&Vec::new()), (None, None));
}

fn strip_ansi(s: &str) -> String {
    let mut out = String::new();
    let mut chars = s.chars().peekable();
    while let Some(c) = chars.next() {
        if c == '\x1b' {
            for d in chars.by_ref() {
                if d == 'm' {
                    break;
                }
            }
        } else {
            out.push(c);
        }
    }
    out
}

#[test]
fn discovery_report_styles() {
    let expired = capabilities_from("old", None, None, false, None, None);
    let segs = profile_report_segments(&expired);
    assert_eq!(
        segs[0],
        vec![
            ("  ".to_string(), None),
            ("Profile:".to_string(), Some(Paint::Dimmed)),
            (" ".to_string(), None),
            ("old".to_string(), Some(Paint::CyanBold)),
            (" ".to_string(), None),
            ("(EXPIRED)".to_string(), Some(Paint::Red)),
        ]
    );
    let line = render_line(&segs[0]);
    assert!(
        line == "  Profile: old (EXPIRED)"
            || line == "  \x1b[2mProfile:\x1b[0m \x1b[1;36mold\x1b[0m \x1b[31m(EXPIRED)\x1b[0m",
        "{:?}",
        line
    );
}
