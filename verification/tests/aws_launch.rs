use hu::aws::launch::{
    kill_next, spawn_next, start_kill, start_spawn, KillAction, SpawnAction, INSTANCE_NOT_FOUND,
    NO_INSTANCE_ID, NO_PUBLIC_IP,
};
use hu::aws::spawn::SpawnConfig;

fn config(my_ip: Option<&str>, ami: Option<&str>) -> SpawnConfig {
    SpawnConfig {
        instance_type: "t4g.small".to_string(),
        ami: ami.map(|s| s.to_string()),
        my_ip: my_ip.map(|s| s.to_string()),
        public_ports: vec![80, 443],
    }
}

#[test]
fn launch_asks_for_missing_address_and_image() {
    let mut p = start_spawn(&config(None, None), 2222, 1700000000, 3);
    assert!(matches!(spawn_next(&p), SpawnAction::FetchPublicIp));
    p.record_public_ip("1.2.3.4".to_string());
    assert!(matches!(spawn_next(&p), SpawnAction::FindDefaultVpc));
    p.record_vpc("vpc-1".to_string());
    assert!(matches!(spawn_next(&p), SpawnAction::FindLatestImage));
}

#[test]
fn launch_full_sequence() {
    let mut p = start_spawn(&config(Some("1.2.3.4"), Some("ami-9")), 2222, 1700000000, 3);
    assert!(matches!(spawn_next(&p), SpawnAction::FindDefaultVpc));
    p.record_vpc("vpc-1".to_string());
    match spawn_next(&p) {
        SpawnAction::CreateKeyPair { key_name } => assert_eq!(key_name, "hu-1700000000"),
        _ => panic!("expected key pair"),
    }
    p.record_key_pair("/home/u/.hu/keys/hu-1700000000.pem".to_string());
    match spawn_next(&p) {
        SpawnAction::CreateSecurityGroup { vpc_id, group_name, description, rules } => {
            assert_eq!(vpc_id, "vpc-1");
            assert_eq!(group_name, "hu-temp-1700000000");
            assert_eq!(description, "Temporary hu-spawned instance (SSH:2222, Public:[80, 443])");
            assert_eq!(
                rules,
                vec![
                    (2222, "1.2.3.4/32".to_string(), "SSH from my IP".to_string()),
                    (80, "0.0.0.0/0".to_string(), "Port 80 public".to_string()),
                    (443, "0.0.0.0/0".to_string(), "Port 443 public".to_string()),
                ]
            );
        }
        _ => panic!("expected security group"),
    }
    p.record_security_group("sg-7".to_string());
    match spawn_next(&p) {
        SpawnAction::RunInstance { image_id, instance_type, key_name, group_id, user_data, tags } => {
            assert_eq!(image_id, "ami-9");
            assert_eq!(instance_type, "t4g.small");
            assert_eq!(key_name, "hu-1700000000");
            assert_eq!(group_id, "sg-7");
            assert!(!user_data.is_empty());
            assert_eq!(tags[0], ("Name".to_string(), "hu-spawned-1700000000".to_string()));
            assert_eq!(tags[5], ("hu-public-ports".to_string(), "80,443".to_string()));
        }
        _ => panic!("expected launch"),
    }
    assert_eq!(p.record_launch(Some("i-42".to_string())), Ok(()));
    match spawn_next(&p) {
        SpawnAction::DescribeInstance { instance_id } => assert_eq!(instance_id, "i-42"),
        _ => panic!("expected describe"),
    }
    p.record_description("pending", None);
    assert!(matches!(spawn_next(&p), SpawnAction::DescribeInstance { .. }));
    p.record_description("running", Some("5.6.7.8".to_string()));
    match spawn_next(&p) {
        SpawnAction::Launched(inst) => {
            assert_eq!(inst.instance_id, "i-42");
            assert_eq!(inst.public_ip, "5.6.7.8");
            assert_eq!(inst.ssh_port, 2222);
            assert_eq!(inst.public_ports, vec![80, 443]);
            assert_eq!(inst.key_name, "hu-1700000000");
            assert_eq!(inst.key_path, "/home/u/.hu/keys/hu-1700000000.pem");
            assert_eq!(inst.security_group_id, "sg-7");
        }
        _ => panic!("expected launched"),
    }
}

#[test]
fn launch_without_instance_id_fails() {
    let mut p = start_spawn(&config(Some("1.2.3.4"), Some("ami-9")), 2222, 1, 3);
    assert_eq!(p.record_launch(None), Err(NO_INSTANCE_ID.to_string()));
    assert!(matches!(spawn_next(&p), SpawnAction::FindDefaultVpc));
}

#[test]
fn launch_times_out_without_public_ip() {
    let mut p = start_spawn(&config(Some("1.2.3.4"), Some("ami-9")), 2222, 1, 2);
    p.record_vpc("vpc-1".to_string());
    p.record_key_pair("k".to_string());
    p.record_security_group("sg".to_string());
    assert_eq!(p.record_launch(Some("i-1".to_string())), Ok(()));
    p.record_description("running", None);
    p.record_description("pending", Some("9.9.9.9".to_string()));
    match spawn_next(&p) {
        SpawnAction::GiveUp(msg) => assert_eq!(msg, NO_PUBLIC_IP),
        _ => panic!("expected timeout"),
    }
}

#[test]
fn launch_with_empty_public_ip_gives_up() {
    let mut p = start_spawn(&config(Some("1.2.3.4"), Some("ami-9")), 2222, 1, 5);
    p.record_vpc("vpc-1".to_string());
    p.record_key_pair("k".to_string());
    p.record_security_group("sg".to_string());
    assert_eq!(p.record_launch(Some("i-1".to_string())), Ok(()));
    p.record_description("running", Some(String::new()));
    assert!(matches!(spawn_next(&p), SpawnAction::GiveUp(_)));
}

#[test]
fn kill_full_sequence() {
    let mut p = start_kill("i-42", 3);
    match kill_next(&p) {
        KillAction::DescribeInstance { instance_id } => assert_eq!(instance_id, "i-42"),
        _ => panic!("expected describe"),
    }
    let tags = vec![
        (Some("Name".to_string()), Some("hu-spawned-1".to_string())),
        (Some("hu-key-name".to_string()), Some("hu-1".to_string())),
        (Some("hu-sg-id".to_string()), Some("sg-7".to_string())),
    ];
    assert_eq!(p.record_found(Some(tags)), Ok(()));
    assert!(matches!(kill_next(&p), KillAction::TerminateInstance { .. }));
    p.record_terminate();
    assert!(matches!(kill_next(&p), KillAction::AwaitTermination { .. }));
    p.record_state("shutting-down");
    assert!(matches!(kill_next(&p), KillAction::AwaitTermination { .. }));
    p.record_state("terminated");
    let step = kill_next(&p);
    match &step {
        KillAction::DeleteKeyPair { key_name } => assert_eq!(key_name, "hu-1"),
        _ => panic!("expected key pair deletion"),
    }
    assert_eq!(p.record_delete(&step, None), None);
    let step = kill_next(&p);
    match &step {
        KillAction::DeleteKeyFile { file_name } => assert_eq!(file_name, "hu-1.pem"),
        _ => panic!("expected key file deletion"),
    }
    assert_eq!(p.record_delete(&step, None), None);
    let step = kill_next(&p);
    match &step {
        KillAction::DeleteSecurityGroup { group_id } => assert_eq!(group_id, "sg-7"),
        _ => panic!("expected group deletion"),
    }
    assert_eq!(
        p.record_delete(&step, Some("DependencyViolation".to_string())),
        Some("Failed to delete security group: DependencyViolation".to_string())
    );
    assert!(matches!(kill_next(&p), KillAction::Finished));
}

#[test]
fn kill_unknown_instance() {
    let mut p = start_kill("i-0", 3);
    assert_eq!(p.record_found(None), Err(INSTANCE_NOT_FOUND.to_string()));
    assert!(matches!(kill_next(&p), KillAction::DescribeInstance { .. }));
}

#[test]
fn kill_untagged_instance_stops_after_wait_runs_out() {
    let mut p = start_kill("i-5", 1);
    assert_eq!(p.record_found(Some(Vec::new())), Ok(()));
    p.record_terminate();
    p.record_state("shutting-down");
    assert!(matches!(kill_next(&p), KillAction::Finished));
}

#[test]
fn removal_reads_back_launch_tags() {
    let written = hu::aws::spawn::spawn_tags(1700000000, "hu-1700000000", "sg-7", 2222, &vec![80]);
    let read: Vec<(Option<String>, Option<String>)> =
        written.into_iter().map(|(k, v)| (Some(k), Some(v))).collect();
    let (key, group) = hu::aws::spawn::managed_resources(&read);
    assert_eq!(key, Some("hu-1700000000".to_string()));
    assert_eq!(group, Some("sg-7".to_string()));
}

#[test]
fn kill_failed_key_pair_delete_goes_on() {
    let mut p = start_kill("i-9", 0);
    let tags = vec![(Some("hu-key-name".to_string()), Some("hu-2".to_string()))];
    assert_eq!(p.record_found(Some(tags)), Ok(()));
    p.record_terminate();
    let step = kill_next(&p);
    assert!(matches!(step, KillAction::DeleteKeyPair { .. }));
    assert_eq!(
        p.record_delete(&step, Some("denied".to_string())),
        Some("Failed to delete key pair: denied".to_string())
    );
    let step = kill_next(&p);
    assert!(matches!(step, KillAction::DeleteKeyFile { .. }));
    assert_eq!(
        p.record_delete(&step, Some("busy".to_string())),
        Some("Failed to delete local key file: busy".to_string())
    );
    assert!(matches!(kill_next(&p), KillAction::Finished));
}
