use hu::config::{AwsProfiles, EnvConfig, KubernetesSettings, LoggingSettings, Settings, DEFAULT_SETTINGS};

#[test]
fn builtin_environments() {
    let s = Settings::default();
    let prod = s.get_env("prod");
    assert_eq!((prod.cluster.as_str(), prod.emoji.as_str()), ("prod-eks", "\u{1f534}"));
    assert_eq!(prod.log_name, Some("production".to_string()));
    let dev = s.get_env("dev");
    assert_eq!(dev.cluster, "eks-dev");
    assert_eq!(dev.log_name, Some("development".to_string()));
    assert_eq!(s.get_env("stg").emoji, "\u{1f7e1}");
    let other = s.get_env("qa");
    assert_eq!((other.cluster.as_str(), other.emoji.as_str()), ("eks-qa", "\u{26aa}"));
    assert_eq!(other.log_name, None);
}

#[test]
fn configured_environment_wins() {
    let mut s = Settings::default();
    s.env.push((
        "prod".to_string(),
        EnvConfig { cluster: "mine".to_string(), emoji: "x".to_string(), log_name: None },
    ));
    let prod = s.get_env("prod");
    assert_eq!(prod.cluster, "mine");
    assert_eq!(prod.log_name, None);
}

#[test]
fn default_values() {
    let s = Settings::default();
    assert_eq!(s.default_env_name(), "dev");
    assert_eq!(s.aws.region, "us-east-1");
    assert_eq!(s.aws.profiles.eks_profile(), Some("eks"));
    assert_eq!(s.aws.profiles.general_profile(), Some("aws"));
    assert_eq!(s.aws.profiles.ec2_profile(), Some("ec2"));
    let k = KubernetesSettings::default();
    assert_eq!((k.namespace.as_str(), k.pod_type.as_str()), ("cms", "web"));
    assert_eq!(LoggingSettings::default().log_path, "~/.config/hu/{env}.log");
    let e = EnvConfig::default();
    assert_eq!((e.cluster.as_str(), e.emoji.as_str()), ("", "\u{26aa}"));
    let p = AwsProfiles { eks: None, general: None, ec2: None };
    assert_eq!(p.eks_profile(), None);
    let mut s2 = Settings::default();
    s2.default_env = Some("prod".to_string());
    assert_eq!(s2.default_env_name(), "prod");
    assert!(DEFAULT_SETTINGS.contains("[env.prod]"));
}
