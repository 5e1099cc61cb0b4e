//! The order of the steps that launch and remove a temporary instance:
//! which outside call comes next, given what the calls so far returned.
//! The caller performs each step and hands its answer to the matching
//! `record_*` method; the state changes only through those methods.

use vstd::prelude::*;
use crate::aws::spawn::{
    SpawnConfig, SpawnedInstance, base64_of, generate_user_data, is_terminated, key_file_name,
    key_name_for, last_tag_value, managed_resources, pairs_view, running_public_ip,
    security_group_description, security_group_description_spec, security_group_name_for,
    ingress_rules, ingress_rules_spec, rules_view, spawn_tags, spawn_tags_spec, user_data_script,
};
use crate::text::{chars_of, dec, opt_text, push_str, string_from_chars};

verus! {

/// A launch in progress: the choices made at the start and what the steps
/// so far found.
pub struct SpawnProgress {
    ssh_port: u16,
    public_ports: Vec<u16>,
    instance_type: String,
    timestamp: u64,
    max_polls: u32,
    my_ip: Option<String>,
    vpc_id: Option<String>,
    ami: Option<String>,
    key_path: Option<String>,
    group_id: Option<String>,
    instance_id: Option<String>,
    polls: u32,
    public_ip: Option<String>,
}

/// What a launch in progress holds, as plain values.
pub struct SpawnView {
    pub ssh_port: u16,
    pub public_ports: Seq<u16>,
    pub instance_type: Seq<char>,
    pub timestamp: u64,
    pub max_polls: u32,
    pub my_ip: Option<Seq<char>>,
    pub vpc_id: Option<Seq<char>>,
    pub ami: Option<Seq<char>>,
    pub key_path: Option<Seq<char>>,
    pub group_id: Option<Seq<char>>,
    pub instance_id: Option<Seq<char>>,
    pub polls: u32,
    pub public_ip: Option<Seq<char>>,
}

impl View for SpawnProgress {
    type V = SpawnView;

    closed spec fn view(&self) -> SpawnView {
        SpawnView {
            ssh_port: self.ssh_port,
            public_ports: self.public_ports@,
            instance_type: self.instance_type@,
            timestamp: self.timestamp,
            max_polls: self.max_polls,
            my_ip: opt_text(self.my_ip),
            vpc_id: opt_text(self.vpc_id),
            ami: opt_text(self.ami),
            key_path: opt_text(self.key_path),
            group_id: opt_text(self.group_id),
            instance_id: opt_text(self.instance_id),
            polls: self.polls,
            public_ip: opt_text(self.public_ip),
        }
    }
}

/// The next step of a launch.
pub enum SpawnAction {
    /// Ask a web service for the caller's public address.
    FetchPublicIp,
    /// Find the default VPC.
    FindDefaultVpc,
    /// Find the newest Amazon Linux 2023 ARM image.
    FindLatestImage,
    /// Create the key pair and save its private key.
    CreateKeyPair { key_name: String },
    /// Create the security group and add its ingress rules (TCP port,
    /// address range, description), in order.
    CreateSecurityGroup {
        vpc_id: String,
        group_name: String,
        description: String,
        rules: Vec<(u16, String, String)>,
    },
    /// Launch the instance.
    RunInstance {
        image_id: String,
        instance_type: String,
        key_name: String,
        group_id: String,
        user_data: String,
        tags: Vec<(String, String)>,
    },
    /// Wait, then look at the instance's state and public address.
    DescribeInstance { instance_id: String },
    /// The instance is up.
    Launched(SpawnedInstance),
    /// The launch failed with this message.
    GiveUp(String),
}

/// The message when no public address came within the polls allowed.
pub const NO_PUBLIC_IP: &'static str = "Instance did not get a public IP within timeout";

/// The message when the launch response names no instance.
pub const NO_INSTANCE_ID: &'static str = "No instance ID in response";

/// The message when the instance to remove is not found.
pub const INSTANCE_NOT_FOUND: &'static str = "Instance not found";

/// A launch about to begin: the caller's address and the image come from
/// the configuration when it gives them.
pub fn start_spawn(config: &SpawnConfig, ssh_port: u16, timestamp: u64, max_polls: u32) -> (res:
    SpawnProgress)
    ensures
        res@ == (SpawnView {
            ssh_port,
            public_ports: config.public_ports@,
            instance_type: config.instance_type@,
            timestamp,
            max_polls,
            my_ip: opt_text(config.my_ip),
            vpc_id: None,
            ami: opt_text(config.ami),
            key_path: None,
            group_id: None,
            instance_id: None,
            polls: 0,
            public_ip: None,
        }),
{
    SpawnProgress {
        ssh_port,
        public_ports: config.public_ports.clone(),
        instance_type: config.instance_type.clone(),
        timestamp,
        max_polls,
        my_ip: config.my_ip.clone(),
        vpc_id: None,
        ami: config.ami.clone(),
        key_path: None,
        group_id: None,
        instance_id: None,
        polls: 0,
        public_ip: None,
    }
}

/// Everything the launch needs before the instance exists has been found.
pub open spec fn resources_ready(p: SpawnView) -> bool {
    &&& p.my_ip is Some
    &&& p.vpc_id is Some
    &&& p.ami is Some
    &&& p.key_path is Some
    &&& p.group_id is Some
}

/// The next step of a launch: the missing lookups and creations in order
/// (address, VPC, image, key pair, security group, instance), then polls of
/// the instance until it is running with a public address; a launch gives
/// up when the polls run out or the address comes back empty.
pub fn spawn_next(p: &SpawnProgress) -> (res: SpawnAction)
    ensures
        p@.my_ip is None ==> res is FetchPublicIp,
        p@.my_ip is Some && p@.vpc_id is None ==> res is FindDefaultVpc,
        p@.my_ip is Some && p@.vpc_id is Some && p@.ami is None ==> res is FindLatestImage,
        p@.my_ip is Some && p@.vpc_id is Some && p@.ami is Some && p@.key_path is None ==> (
        res matches SpawnAction::CreateKeyPair { key_name } && key_name@ == "hu-"@ + dec(
            p@.timestamp as nat,
        )),
        p@.my_ip is Some && p@.vpc_id is Some && p@.ami is Some && p@.key_path is Some
            && p@.group_id is None ==> (res matches SpawnAction::CreateSecurityGroup {
            vpc_id,
            group_name,
            description,
            rules,
        } && vpc_id@ == p@.vpc_id.unwrap() && group_name@ == "hu-temp-"@ + dec(p@.timestamp as nat)
            && description@ == security_group_description_spec(p@.ssh_port, p@.public_ports)
            && rules_view(rules@) == ingress_rules_spec(p@.ssh_port, p@.public_ports, p@.my_ip.unwrap())),
        resources_ready(p@) && p@.instance_id is None ==> (res matches SpawnAction::RunInstance {
            image_id,
            instance_type,
            key_name,
            group_id,
            user_data,
            tags,
        } && image_id@ == p@.ami.unwrap() && instance_type@ == p@.instance_type && key_name@ == "hu-"@
            + dec(p@.timestamp as nat) && group_id@ == p@.group_id.unwrap() && user_data@ == base64_of(
            user_data_script(p@.ssh_port),
        ) && pairs_view(tags@) == spawn_tags_spec(
            p@.timestamp,
            key_name@,
            group_id@,
            p@.ssh_port,
            p@.public_ports,
        )),
        resources_ready(p@) && p@.instance_id is Some && p@.public_ip is None && p@.polls
            < p@.max_polls ==> (res matches SpawnAction::DescribeInstance { instance_id }
            && instance_id@ == p@.instance_id.unwrap()),
        resources_ready(p@) && p@.instance_id is Some && p@.public_ip is None && p@.polls
            >= p@.max_polls ==> (res matches SpawnAction::GiveUp(msg) && msg@ == NO_PUBLIC_IP@),
        resources_ready(p@) && p@.instance_id is Some && p@.public_ip is Some
            && p@.public_ip.unwrap().len() == 0 ==> (res matches SpawnAction::GiveUp(msg) && msg@
            == NO_PUBLIC_IP@),
        resources_ready(p@) && p@.instance_id is Some && p@.public_ip is Some
            && p@.public_ip.unwrap().len() > 0 ==> (res matches SpawnAction::Launched(inst)
            && inst.instance_id@ == p@.instance_id.unwrap() && inst.public_ip@ == p@.public_ip.unwrap()
            && inst.ssh_port == p@.ssh_port && inst.public_ports@ == p@.public_ports
            && inst.key_name@ == "hu-"@ + dec(p@.timestamp as nat) && inst.key_path@
            == p@.key_path.unwrap() && inst.security_group_id@ == p@.group_id.unwrap()),
{
    let my_ip = match &p.my_ip {
        None => {
            return SpawnAction::FetchPublicIp;
        },
        Some(ip) => ip,
    };
    let vpc_id = match &p.vpc_id {
        None => {
            return SpawnAction::FindDefaultVpc;
        },
        Some(v) => v,
    };
    let ami = match &p.ami {
        None => {
            return SpawnAction::FindLatestImage;
        },
        Some(a) => a,
    };
    let key_name = key_name_for(p.timestamp);
    let key_path = match &p.key_path {
        None => {
            return SpawnAction::CreateKeyPair { key_name };
        },
        Some(k) => k,
    };
    let group_id = match &p.group_id {
        None => {
            return SpawnAction::CreateSecurityGroup {
                vpc_id: vpc_id.clone(),
                group_name: security_group_name_for(p.timestamp),
                description: security_group_description(p.ssh_port, &p.public_ports),
                rules: ingress_rules(p.ssh_port, &p.public_ports, my_ip.as_str()),
            };
        },
        Some(g) => g,
    };
    let instance_id = match &p.instance_id {
        None => {
            let tags = spawn_tags(p.timestamp, key_name.as_str(), group_id.as_str(), p.ssh_port, &p.public_ports);
            return SpawnAction::RunInstance {
                image_id: ami.clone(),
                instance_type: p.instance_type.clone(),
                key_name,
                group_id: group_id.clone(),
                user_data: generate_user_data(p.ssh_port),
                tags,
            };
        },
        Some(i) => i,
    };
    match &p.public_ip {
        None => {
            if p.polls < p.max_polls {
                SpawnAction::DescribeInstance { instance_id: instance_id.clone() }
            } else {
                SpawnAction::GiveUp(NO_PUBLIC_IP.to_string())
            }
        },
        Some(ip) => {
            if ip.as_str().is_empty() {
                SpawnAction::GiveUp(NO_PUBLIC_IP.to_string())
            } else {
                SpawnAction::Launched(
                    SpawnedInstance {
                        instance_id: instance_id.clone(),
                        public_ip: ip.clone(),
                        ssh_port: p.ssh_port,
                        public_ports: p.public_ports.clone(),
                        key_name,
                        key_path: key_path.clone(),
                        security_group_id: group_id.clone(),
                    },
                )
            }
        },
    }
}

impl SpawnProgress {
    /// Record the caller's public address.
    pub fn record_public_ip(&mut self, ip: String)
        ensures
            final(self)@ == (SpawnView { my_ip: Some(ip@), ..old(self)@ }),
    {
        self.my_ip = Some(ip);
    }

    /// Record the default VPC.
    pub fn record_vpc(&mut self, vpc_id: String)
        ensures
            final(self)@ == (SpawnView { vpc_id: Some(vpc_id@), ..old(self)@ }),
    {
        self.vpc_id = Some(vpc_id);
    }

    /// Record the image found.
    pub fn record_image(&mut self, image_id: String)
        ensures
            final(self)@ == (SpawnView { ami: Some(image_id@), ..old(self)@ }),
    {
        self.ami = Some(image_id);
    }

    /// Record where the private key of the new key pair was saved.
    pub fn record_key_pair(&mut self, key_path: String)
        ensures
            final(self)@ == (SpawnView { key_path: Some(key_path@), ..old(self)@ }),
    {
        self.key_path = Some(key_path);
    }

    /// Record the new security group.
    pub fn record_security_group(&mut self, group_id: String)
        ensures
            final(self)@ == (SpawnView { group_id: Some(group_id@), ..old(self)@ }),
    {
        self.group_id = Some(group_id);
    }

    /// Record the launch response: the instance it names, or the error
    /// when it names none (the launch is then left as it was).
    pub fn record_launch(&mut self, instance_id: Option<String>) -> (res: Result<(), String>)
        ensures
            instance_id is None ==> (res matches Err(msg) && msg@ == NO_INSTANCE_ID@ && final(self)@
                == old(self)@),
            instance_id is Some ==> (res is Ok && final(self)@ == (SpawnView {
                instance_id: opt_text(instance_id),
                ..old(self)@
            })),
    {
        match instance_id {
            None => Err(NO_INSTANCE_ID.to_string()),
            Some(id) => {
                self.instance_id = Some(id);
                Ok(())
            },
        }
    }

    /// Record one look at the instance: one more poll, and its public
    /// address once it is running and has one.
    pub fn record_description(&mut self, state: &str, public_ip: Option<String>)
        requires
            old(self)@.polls < old(self)@.max_polls,
        ensures
            final(self)@ == (SpawnView {
                polls: (old(self)@.polls + 1) as u32,
                public_ip: if state@ == "running"@ {
                    opt_text(public_ip)
                } else {
                    None
                },
                ..old(self)@
            }),
    {
        self.polls = self.polls + 1;
        self.public_ip = running_public_ip(state, public_ip);
    }
}

/// A removal in progress.
pub struct KillProgress {
    instance_id: String,
    max_polls: u32,
    found: bool,
    key_name: Option<String>,
    group_id: Option<String>,
    terminate_sent: bool,
    polls: u32,
    terminated: bool,
    key_pair_done: bool,
    key_file_done: bool,
    group_done: bool,
}

/// What a removal in progress holds, as plain values.
pub struct KillView {
    pub instance_id: Seq<char>,
    pub max_polls: u32,
    /// The instance was found and its tags read.
    pub found: bool,
    pub key_name: Option<Seq<char>>,
    pub group_id: Option<Seq<char>>,
    pub terminate_sent: bool,
    pub polls: u32,
    pub terminated: bool,
    /// The key pair's deletion was tried (whether or not it worked).
    pub key_pair_done: bool,
    /// The local key file's deletion was tried.
    pub key_file_done: bool,
    /// The security group's deletion was tried.
    pub group_done: bool,
}

impl View for KillProgress {
    type V = KillView;

    closed spec fn view(&self) -> KillView {
        KillView {
            instance_id: self.instance_id@,
            max_polls: self.max_polls,
            found: self.found,
            key_name: opt_text(self.key_name),
            group_id: opt_text(self.group_id),
            terminate_sent: self.terminate_sent,
            polls: self.polls,
            terminated: self.terminated,
            key_pair_done: self.key_pair_done,
            key_file_done: self.key_file_done,
            group_done: self.group_done,
        }
    }
}

/// The next step of a removal. A removal has no failure of its own after
/// the instance is found: a failed deletion is reported and the removal
/// goes on.
pub enum KillAction {
    /// Look up the instance and its tags.
    DescribeInstance { instance_id: String },
    /// Ask for the instance to be terminated.
    TerminateInstance { instance_id: String },
    /// Wait, then look at the instance's state.
    AwaitTermination { instance_id: String },
    /// Delete the key pair.
    DeleteKeyPair { key_name: String },
    /// Delete the local private key file of this name, if it exists.
    DeleteKeyFile { file_name: String },
    /// Delete the security group.
    DeleteSecurityGroup { group_id: String },
    /// Nothing is left to do; the removal succeeded.
    Finished,
}

/// A removal about to begin.
pub fn start_kill(instance_id: &str, max_polls: u32) -> (res: KillProgress)
    ensures
        res@ == (KillView {
            instance_id: instance_id@,
            max_polls,
            found: false,
            key_name: None,
            group_id: None,
            terminate_sent: false,
            polls: 0,
            terminated: false,
            key_pair_done: false,
            key_file_done: false,
            group_done: false,
        }),
{
    KillProgress {
        instance_id: instance_id.to_string(),
        max_polls,
        found: false,
        key_name: None,
        group_id: None,
        terminate_sent: false,
        polls: 0,
        terminated: false,
        key_pair_done: false,
        key_file_done: false,
        group_done: false,
    }
}

/// The next step of a removal: find the instance, terminate it, wait for
/// the termination (as long as the polls allow; running out is no error),
/// then delete the key pair and its local file and the security group that
/// its tags name.
pub fn kill_next(p: &KillProgress) -> (res: KillAction)
    ensures
        !p@.found ==> (res matches KillAction::DescribeInstance { instance_id } && instance_id@
            == p@.instance_id),
        p@.found && !p@.terminate_sent ==> (res matches KillAction::TerminateInstance { instance_id }
            && instance_id@ == p@.instance_id),
        p@.found && p@.terminate_sent && !p@.terminated && p@.polls < p@.max_polls ==> (
        res matches KillAction::AwaitTermination { instance_id } && instance_id@ == p@.instance_id),
        p@.found && p@.terminate_sent && (p@.terminated || p@.polls >= p@.max_polls) ==> ({
            if p@.key_name is Some && !p@.key_pair_done {
                res matches KillAction::DeleteKeyPair { key_name } && key_name@ == p@.key_name.unwrap()
            } else if p@.key_name is Some && !p@.key_file_done {
                res matches KillAction::DeleteKeyFile { file_name } && file_name@ == p@.key_name.unwrap()
                    + ".pem"@
            } else if p@.group_id is Some && !p@.group_done {
                res matches KillAction::DeleteSecurityGroup { group_id } && group_id@
                    == p@.group_id.unwrap()
            } else {
                res is Finished
            }
        }),
{
    if !p.found {
        return KillAction::DescribeInstance { instance_id: p.instance_id.clone() };
    }
    if !p.terminate_sent {
        return KillAction::TerminateInstance { instance_id: p.instance_id.clone() };
    }
    if !p.terminated && p.polls < p.max_polls {
        return KillAction::AwaitTermination { instance_id: p.instance_id.clone() };
    }
    if let Some(key) = &p.key_name {
        if !p.key_pair_done {
            return KillAction::DeleteKeyPair { key_name: key.clone() };
        }
        if !p.key_file_done {
            return KillAction::DeleteKeyFile { file_name: key_file_name(key.as_str()) };
        }
    }
    if let Some(group) = &p.group_id {
        if !p.group_done {
            return KillAction::DeleteSecurityGroup { group_id: group.clone() };
        }
    }
    KillAction::Finished
}

/// The report of a failed deletion: which resource, then the error.
pub open spec fn delete_failure_report(which: KillAction, error: Seq<char>) -> Seq<char> {
    match which {
        KillAction::DeleteKeyPair { .. } => "Failed to delete key pair: "@ + error,
        KillAction::DeleteKeyFile { .. } => "Failed to delete local key file: "@ + error,
        _ => "Failed to delete security group: "@ + error,
    }
}

/// `prefix` followed by `text`.
fn prefixed(prefix: &str, text: &str) -> (res: String)
    ensures
        res@ == prefix@ + text@,
{
    let mut out = chars_of(prefix);
    push_str(&mut out, text);
    string_from_chars(&out)
}

impl KillProgress {
    /// Record the lookup of the instance: its tags when it was found (the
    /// key pair and security group they name are kept), the error when not
    /// (the removal is then left as it was, so nothing is terminated or
    /// deleted). This is the only error of a removal.
    pub fn record_found(&mut self, tags: Option<Vec<(Option<String>, Option<String>)>>) -> (res:
        Result<(), String>)
        ensures
            tags is None ==> (res matches Err(msg) && msg@ == INSTANCE_NOT_FOUND@ && final(self)@
                == old(self)@),
            tags matches Some(t) ==> (res is Ok && final(self)@ == (KillView {
                found: true,
                key_name: last_tag_value(t@, "hu-key-name"@),
                group_id: last_tag_value(t@, "hu-sg-id"@),
                ..old(self)@
            })),
    {
        match tags {
            None => Err(INSTANCE_NOT_FOUND.to_string()),
            Some(t) => {
                let (key, group) = managed_resources(&t);
                self.found = true;
                self.key_name = key;
                self.group_id = group;
                Ok(())
            },
        }
    }

    /// Record that the termination was asked for.
    pub fn record_terminate(&mut self)
        requires
            old(self)@.found,
        ensures
            final(self)@ == (KillView { terminate_sent: true, ..old(self)@ }),
    {
        self.terminate_sent = true;
    }

    /// Record one look at the terminating instance: one more poll, and
    /// whether it has reached `terminated`.
    pub fn record_state(&mut self, state: &str)
        requires
            old(self)@.terminate_sent,
            old(self)@.polls < old(self)@.max_polls,
        ensures
            final(self)@ == (KillView {
                polls: (old(self)@.polls + 1) as u32,
                terminated: state@ == "terminated"@,
                ..old(self)@
            }),
    {
        self.polls = self.polls + 1;
        self.terminated = is_terminated(state);
    }

    /// Record a deletion: the step is done whether or not it worked, so
    /// the removal goes on; a failure (`error`) is handed back as the line
    /// to report, and no failure gives none.
    pub fn record_delete(&mut self, which: &KillAction, error: Option<String>) -> (report: Option<
        String,
    >)
        requires
            which is DeleteKeyPair || which is DeleteKeyFile || which is DeleteSecurityGroup,
        ensures
            which is DeleteKeyPair ==> final(self)@ == (KillView { key_pair_done: true, ..old(self)@ }),
            which is DeleteKeyFile ==> final(self)@ == (KillView { key_file_done: true, ..old(self)@ }),
            which is DeleteSecurityGroup ==> final(self)@ == (KillView {
                group_done: true,
                ..old(self)@
            }),
            error is None ==> report is None,
            error matches Some(e) ==> (report matches Some(r) && r@ == delete_failure_report(
                *which,
                e@,
            )),
    {
        let prefix = match which {
            KillAction::DeleteKeyPair { .. } => {
                self.key_pair_done = true;
                "Failed to delete key pair: "
            },
            KillAction::DeleteKeyFile { .. } => {
                self.key_file_done = true;
                "Failed to delete local key file: "
            },
            _ => {
                self.group_done = true;
                "Failed to delete security group: "
            },
        };
        match error {
            None => None,
            Some(e) => Some(prefixed(prefix, e.as_str())),
        }
    }
}

/// The tags of a launch as a removal reads them back: each key and value
/// present, with the texts the launch gave them.
pub open spec fn tags_read_back(
    tags: Seq<(Option<String>, Option<String>)>,
    written: Seq<(Seq<char>, Seq<char>)>,
) -> bool {
    &&& tags.len() == written.len()
    &&& forall|i: int|
        0 <= i < tags.len() ==> (#[trigger] tags[i]).0 is Some && tags[i].1 is Some && tags[i].0.unwrap()@
            == written[i].0 && tags[i].1.unwrap()@ == written[i].1
}

/// A removal finds again what a launch created: the tags a launch puts on
/// its instance, read back, name its key pair and its security group.
pub proof fn lemma_removal_finds_launch_resources(
    tags: Seq<(Option<String>, Option<String>)>,
    timestamp: u64,
    key_name: Seq<char>,
    group_id: Seq<char>,
    ssh_port: u16,
    public_ports: Seq<u16>,
)
    requires
        tags_read_back(tags, spawn_tags_spec(timestamp, key_name, group_id, ssh_port, public_ports)),
    ensures
        last_tag_value(tags, "hu-key-name"@) == Some(key_name),
        last_tag_value(tags, "hu-sg-id"@) == Some(group_id),
{
    let w = spawn_tags_spec(timestamp, key_name, group_id, ssh_port, public_ports);
    reveal_strlit("hu-key-name");
    reveal_strlit("hu-sg-id");
    reveal_strlit("hu-ssh-port");
    reveal_strlit("hu-public-ports");
    assert(tags[5].0.unwrap()@ == "hu-public-ports"@);
    assert(tags[4].0.unwrap()@ == "hu-ssh-port"@);
    assert(tags[3].0.unwrap()@ == "hu-sg-id"@);
    assert(tags[2].0.unwrap()@ == "hu-key-name"@);
    assert(tags[3].1.unwrap()@ == group_id);
    assert(tags[2].1.unwrap()@ == key_name);
    assert("hu-public-ports"@ != "hu-key-name"@ && "hu-public-ports"@ != "hu-sg-id"@) by {
        assert("hu-public-ports"@[3] != "hu-key-name"@[3]);
        assert("hu-public-ports"@[3] != "hu-sg-id"@[3]);
    }
    assert("hu-ssh-port"@ != "hu-key-name"@ && "hu-ssh-port"@ != "hu-sg-id"@) by {
        assert("hu-ssh-port"@[3] != "hu-key-name"@[3]);
        assert("hu-ssh-port"@[4] != "hu-sg-id"@[4]);
    }
    assert("hu-sg-id"@ != "hu-key-name"@) by {
        assert("hu-sg-id"@[3] != "hu-key-name"@[3]);
    }
    let t5 = tags;
    let t4 = t5.drop_last();
    let t3 = t4.drop_last();
    let t2 = t3.drop_last();
    assert(t5.last() == tags[5]);
    assert(t4.last() == tags[4]);
    assert(t3.last() == tags[3]);
    assert(t2.last() == tags[2]);
    assert(last_tag_value(t3, "hu-sg-id"@) == Some(group_id));
    assert(last_tag_value(t2, "hu-key-name"@) == Some(key_name));
    assert(last_tag_value(t3, "hu-key-name"@) == Some(key_name));
    assert(last_tag_value(t4, "hu-key-name"@) == Some(key_name));
    assert(last_tag_value(t4, "hu-sg-id"@) == Some(group_id));
    assert(last_tag_value(t5, "hu-key-name"@) == Some(key_name));
    assert(last_tag_value(t5, "hu-sg-id"@) == Some(group_id));
}

} // verus!
