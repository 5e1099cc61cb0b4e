//! User settings: AWS region and profiles, Kubernetes defaults, log paths
//! and the named environments.

use vstd::prelude::*;
use crate::text::{opt_str, opt_text, chars_eq, chars_eq_str, chars_of, push_str, string_from_chars};

verus! {

/// Default settings.toml content with all options commented out
pub const DEFAULT_SETTINGS: &'static str = r#"# hu settings
# See settings.example.toml in the repo for full documentation

[aws]
region = "us-east-1"

# AWS profiles for different services
# Each profile is used for specific operations:
#   eks     - EKS/Kubernetes operations (pod listing, exec, log tailing)
#   general - General AWS operations (whoami, login)
#   ec2     - EC2 operations (future)
[aws.profiles]
eks = "eks"
general = "aws"
ec2 = "ec2"

# [kubernetes]
# namespace = "cms"
# pod_type = "web"

# [logging]
# log_path = "~/.config/hu/{env}.log"

# default_env = "dev"

[env.dev]
cluster = "eks-dev"
emoji = "🟢"
log_name = "development"

[env.stg]
cluster = "eks-stg"
emoji = "🟡"
log_name = "staging"

[env.prod]
cluster = "prod-eks"
emoji = "🔴"
log_name = "production"
"#;

/// All settings.
#[derive(Debug)]
pub struct Settings {
    pub aws: AwsSettings,
    pub kubernetes: KubernetesSettings,
    pub logging: LoggingSettings,
    pub default_env: Option<String>,
    /// The `[env.NAME]` tables, by name.
    pub env: Vec<(String, EnvConfig)>,
}

/// The AWS region and the profile of each kind of operation.
#[derive(Debug)]
pub struct AwsSettings {
    pub region: String,
    pub profiles: AwsProfiles,
}

/// The AWS profile used for EKS, for general operations and for EC2.
#[derive(Debug)]
pub struct AwsProfiles {
    pub eks: Option<String>,
    pub general: Option<String>,
    pub ec2: Option<String>,
}

/// The namespace and pod type a pod session looks in by default.
#[derive(Debug)]
pub struct KubernetesSettings {
    pub namespace: String,
    pub pod_type: String,
}

/// One environment: its cluster, its emoji and the name of its log.
#[derive(Debug)]
pub struct EnvConfig {
    pub cluster: String,
    pub emoji: String,
    pub log_name: Option<String>,
}

/// Where logs are written; `{env}` stands for the environment.
#[derive(Debug)]
pub struct LoggingSettings {
    pub log_path: String,
}

impl Default for AwsProfiles {
    fn default() -> (res: Self)
        ensures
            opt_text(res.eks) == Some("eks"@),
            opt_text(res.general) == Some("aws"@),
            opt_text(res.ec2) == Some("ec2"@),
    {
        AwsProfiles {
            eks: Some("eks".to_string()),
            general: Some("aws".to_string()),
            ec2: Some("ec2".to_string()),
        }
    }
}

impl Default for AwsSettings {
    fn default() -> (res: Self)
        ensures
            res.region@ == "us-east-1"@,
            opt_text(res.profiles.eks) == Some("eks"@),
            opt_text(res.profiles.general) == Some("aws"@),
            opt_text(res.profiles.ec2) == Some("ec2"@),
    {
        AwsSettings { region: "us-east-1".to_string(), profiles: AwsProfiles::default() }
    }
}

impl Default for KubernetesSettings {
    fn default() -> (res: Self)
        ensures
            res.namespace@ == "cms"@,
            res.pod_type@ == "web"@,
    {
        KubernetesSettings { namespace: "cms".to_string(), pod_type: "web".to_string() }
    }
}

impl Default for EnvConfig {
    fn default() -> (res: Self)
        ensures
            res.cluster@.len() == 0,
            res.emoji@ == "\u{26aa}"@,
            res.log_name is None,
    {
        EnvConfig { cluster: String::new(), emoji: "\u{26aa}".to_string(), log_name: None }
    }
}

impl Default for LoggingSettings {
    fn default() -> (res: Self)
        ensures
            res.log_path@ == "~/.config/hu/{env}.log"@,
    {
        LoggingSettings { log_path: "~/.config/hu/{env}.log".to_string() }
    }
}

impl Default for Settings {
    fn default() -> (res: Self)
        ensures
            res.aws.region@ == "us-east-1"@,
            opt_text(res.aws.profiles.eks) == Some("eks"@),
            opt_text(res.aws.profiles.general) == Some("aws"@),
            opt_text(res.aws.profiles.ec2) == Some("ec2"@),
            res.kubernetes.namespace@ == "cms"@,
            res.kubernetes.pod_type@ == "web"@,
            res.logging.log_path@ == "~/.config/hu/{env}.log"@,
            res.default_env is None,
            res.env@.len() == 0,
    {
        Settings {
            aws: AwsSettings::default(),
            kubernetes: KubernetesSettings::default(),
            logging: LoggingSettings::default(),
            default_env: None,
            env: Vec::new(),
        }
    }
}

impl AwsProfiles {
    pub fn eks_profile(&self) -> (res: Option<&str>)
        ensures
            opt_str(res) == opt_text(self.eks),
    {
        match &self.eks {
            Some(p) => Some(p.as_str()),
            None => None,
        }
    }

    pub fn general_profile(&self) -> (res: Option<&str>)
        ensures
            opt_str(res) == opt_text(self.general),
    {
        match &self.general {
            Some(p) => Some(p.as_str()),
            None => None,
        }
    }

    pub fn ec2_profile(&self) -> (res: Option<&str>)
        ensures
            opt_str(res) == opt_text(self.ec2),
    {
        match &self.ec2 {
            Some(p) => Some(p.as_str()),
            None => None,
        }
    }
}

/// The view of an environment: cluster, emoji, log name.
pub open spec fn env_view(e: EnvConfig) -> (Seq<char>, Seq<char>, Option<Seq<char>>) {
    (e.cluster@, e.emoji@, opt_text(e.log_name))
}

/// The first environment of the settings with this name.
pub open spec fn configured_env(envs: Seq<(String, EnvConfig)>, name: Seq<char>) -> Option<EnvConfig>
    decreases envs.len(),
{
    if envs.len() == 0 {
        None
    } else if envs[0].0@ == name {
        Some(envs[0].1)
    } else {
        configured_env(envs.drop_first(), name)
    }
}

/// The built-in environments: `prod`, `dev` and `stg` have their clusters,
/// emojis and log names; any other name `N` runs on cluster `eks-N`.
pub open spec fn builtin_env(name: Seq<char>) -> (Seq<char>, Seq<char>, Option<Seq<char>>) {
    if name == "prod"@ {
        ("prod-eks"@, "\u{1f534}"@, Some("production"@))
    } else if name == "dev"@ {
        ("eks-dev"@, "\u{1f7e2}"@, Some("development"@))
    } else if name == "stg"@ {
        ("eks-stg"@, "\u{1f7e1}"@, Some("staging"@))
    } else {
        ("eks-"@ + name, "\u{26aa}"@, None)
    }
}

/// The environment a name gives: the configured one when there is one,
/// else the built-in one.
pub open spec fn env_for(envs: Seq<(String, EnvConfig)>, name: Seq<char>) -> (Seq<char>, Seq<char>, Option<Seq<char>>) {
    match configured_env(envs, name) {
        Some(e) => env_view(e),
        None => builtin_env(name),
    }
}

fn copy_env(e: &EnvConfig) -> (res: EnvConfig)
    ensures
        env_view(res) == env_view(*e),
{
    EnvConfig {
        cluster: e.cluster.clone(),
        emoji: e.emoji.clone(),
        log_name: match &e.log_name {
            Some(l) => Some(l.clone()),
            None => None,
        },
    }
}

impl Settings {
    pub fn get_env(&self, name: &str) -> (res: EnvConfig)
        ensures
            env_view(res) == env_for(self.env@, name@),
    {
        let n = chars_of(name);
        let mut i: usize = 0;
        assert(self.env@.skip(0) =~= self.env@);
        while i < self.env.len()
            invariant
                i <= self.env.len(),
                n@ == name@,
                configured_env(self.env@, name@) == configured_env(self.env@.skip(i as int), name@),
            decreases self.env.len() - i,
        {
            assert(self.env@.skip(i as int).drop_first() =~= self.env@.skip(i + 1));
            if chars_eq(&chars_of(self.env[i].0.as_str()), &n) {
                return copy_env(&self.env[i].1);
            }
            i = i + 1;
        }
        if chars_eq_str(&n, "prod") {
            EnvConfig {
                cluster: "prod-eks".to_string(),
                emoji: "\u{1f534}".to_string(),
                log_name: Some("production".to_string()),
            }
        } else if chars_eq_str(&n, "dev") {
            EnvConfig {
                cluster: "eks-dev".to_string(),
                emoji: "\u{1f7e2}".to_string(),
                log_name: Some("development".to_string()),
            }
        } else if chars_eq_str(&n, "stg") {
            EnvConfig {
                cluster: "eks-stg".to_string(),
                emoji: "\u{1f7e1}".to_string(),
                log_name: Some("staging".to_string()),
            }
        } else {
            let mut c = chars_of("eks-");
            push_str(&mut c, name);
            EnvConfig { cluster: string_from_chars(&c), emoji: "\u{26aa}".to_string(), log_name: None }
        }
    }

    pub fn default_env_name(&self) -> (res: &str)
        ensures
            res@ == (match self.default_env {
                Some(e) => e@,
                None => "dev"@,
            }),
    {
        match &self.default_env {
            Some(e) => e.as_str(),
            None => "dev",
        }
    }
}

} // verus!
