//! The bookkeeping of a temporary EC2 instance: its random SSH port, the
//! script that moves SSH there, the names and tags of what is created, and
//! what a cleanup finds to delete.

use vstd::prelude::*;
use base64::Engine;
use std::collections::hash_map::DefaultHasher;
use std::hash::Hasher;
use vstd::std_specs::hash::DefaultHasherAdditionalSpecFns;
use crate::text::{
    opt_text, chars_eq_str, chars_of, dec, dec_chars, join, join_chars, push_chars, push_str, string_from_chars, vv,
};

verus! {

/// Configuration for spawning a temporary EC2 instance
pub struct SpawnConfig {
    pub instance_type: String,
    pub ami: Option<String>,
    pub my_ip: Option<String>,
    pub public_ports: Vec<u16>,
}

/// Result of spawning an EC2 instance
#[derive(Debug)]
pub struct SpawnedInstance {
    pub instance_id: String,
    pub public_ip: String,
    pub ssh_port: u16,
    pub public_ports: Vec<u16>,
    pub key_name: String,
    pub key_path: String,
    pub security_group_id: String,
}

/// Nanoseconds since the Unix epoch by the system clock (0 when the clock
/// is before the epoch). Nothing is stated of the value: it is the time.
#[verifier::external_body]
fn unix_nanos() -> (res: u128) {
    match std::time::SystemTime::now().duration_since(std::time::SystemTime::UNIX_EPOCH) {
        Ok(d) => d.as_nanos(),
        Err(_) => 0,
    }
}

/// `u128::to_ne_bytes`: the value's bytes in the machine's byte order,
/// which std leaves to the target, so nothing is stated of them.
#[verifier::external_body]
fn native_bytes(value: u128) -> (res: [u8; 16]) {
    value.to_ne_bytes()
}

/// The hash `DefaultHasher` gives a `u128` (what `Hash for u128` feeds it:
/// the value's native bytes in one write). The hash is the finish of that
/// one write.
fn default_hash(value: u128) -> (res: u64)
    ensures
        exists|b: Seq<u8>| b.len() == 16 && res == DefaultHasher::spec_finish(seq![b]),
{
    let bytes = native_bytes(value);
    let slice = bytes.as_slice();
    let mut hasher = DefaultHasher::new();
    hasher.write(slice);
    let h = hasher.finish();
    let ghost b = slice@;
    assert(b.len() == 16);
    assert(hasher@ =~= seq![b]);
    assert(h == DefaultHasher::spec_finish(seq![b]));
    h
}

/// The port a hash picks: one of 1024..=65534.
pub fn port_from_hash(hash: u64) -> (res: u16)
    ensures
        res == hash % 64511 + 1024,
{
    ((hash % 64511) + 1024) as u16
}

/// Generate a random high port (1024-65535)
pub fn generate_random_port() -> (res: u16)
    ensures
        1024 <= res <= 65534,
{
    let now = unix_nanos();
    port_from_hash(default_hash(now))
}

/// The character of a 6-bit value in the standard base64 alphabet:
/// `A`..`Z`, `a`..`z`, `0`..`9`, `+`, `/`.
pub open spec fn base64_digit(v: nat) -> char {
    if v < 26 {
        ((65 + v) as u32) as char
    } else if v < 52 {
        ((97 + v - 26) as u32) as char
    } else if v < 62 {
        ((48 + v - 52) as u32) as char
    } else if v == 62 {
        '+'
    } else {
        '/'
    }
}

/// Standard base64 of bytes, padded with `=`: each three bytes give four
/// characters of six bits each; a last one or two bytes give two or three
/// characters and the padding.
pub open spec fn base64_bytes(b: Seq<u8>) -> Seq<char>
    decreases b.len(),
{
    if b.len() == 0 {
        seq![]
    } else if b.len() == 1 {
        seq![base64_digit(b[0] as nat / 4), base64_digit((b[0] as nat % 4) * 16), '=', '=']
    } else if b.len() == 2 {
        seq![
            base64_digit(b[0] as nat / 4),
            base64_digit((b[0] as nat % 4) * 16 + b[1] as nat / 16),
            base64_digit((b[1] as nat % 16) * 4),
            '=',
        ]
    } else {
        seq![
            base64_digit(b[0] as nat / 4),
            base64_digit((b[0] as nat % 4) * 16 + b[1] as nat / 16),
            base64_digit((b[1] as nat % 16) * 4 + b[2] as nat / 64),
            base64_digit(b[2] as nat % 64),
        ] + base64_bytes(b.skip(3))
    }
}

/// Standard base64 (with padding) of the UTF-8 bytes of a text.
pub open spec fn base64_of(text: Seq<char>) -> Seq<char> {
    base64_bytes(vstd::utf8::encode_utf8(text))
}

/// `STANDARD.encode(text.as_bytes())` from the base64 crate: the standard
/// alphabet with `=` padding over the text's UTF-8 bytes.
#[verifier::external_body]
fn base64_encode(text: &str) -> (res: String)
    ensures
        res@ == base64_of(text@),
{
    base64::engine::general_purpose::STANDARD.encode(text.as_bytes())
}

/// The boot script up to the first port.
pub const USER_DATA_HEAD: &'static str = "#!/bin/bash\n# Configure SSH on custom port\nsed -i 's/#Port 22/Port ";

/// The boot script between the first and the second port.
pub const USER_DATA_SECOND: &'static str = "/' /etc/ssh/sshd_config\nsed -i 's/Port 22/Port ";

/// The boot script between the second and the third port.
pub const USER_DATA_THIRD: &'static str = "/' /etc/ssh/sshd_config\n# SELinux port context (Amazon Linux)\nsemanage port -a -t ssh_port_t -p tcp ";

/// The boot script after the third port.
pub const USER_DATA_TAIL: &'static str = " 2>/dev/null || true\n# Restart SSH\nsystemctl restart sshd\n";

/// The boot script that moves SSH to `port`: both `Port 22` lines of
/// `sshd_config` rewritten, the SELinux port context added, sshd restarted.
pub open spec fn user_data_script(port: u16) -> Seq<char> {
    let d = dec(port as nat);
    USER_DATA_HEAD@ + d + USER_DATA_SECOND@ + d + USER_DATA_THIRD@ + d + USER_DATA_TAIL@
}

/// The boot script in plain text.
pub fn user_data_text(ssh_port: u16) -> (res: String)
    ensures
        res@ == user_data_script(ssh_port),
{
    let d = dec_chars(ssh_port as u64);
    let mut out: Vec<char> = Vec::new();
    push_str(&mut out, USER_DATA_HEAD);
    push_chars(&mut out, &d);
    push_str(&mut out, USER_DATA_SECOND);
    push_chars(&mut out, &d);
    push_str(&mut out, USER_DATA_THIRD);
    push_chars(&mut out, &d);
    push_str(&mut out, USER_DATA_TAIL);
    string_from_chars(&out)
}

/// Generate user data script to configure SSH on custom port
pub fn generate_user_data(ssh_port: u16) -> (res: String)
    ensures
        res@ == base64_of(user_data_script(ssh_port)),
{
    let script = user_data_text(ssh_port);
    base64_encode(script.as_str())
}

/// The decimal forms of the ports.
pub open spec fn port_texts(ports: Seq<u16>) -> Seq<Seq<char>> {
    ports.map_values(|p: u16| dec(p as nat))
}

fn port_texts_exec(ports: &Vec<u16>) -> (res: Vec<Vec<char>>)
    ensures
        vv(res@) == port_texts(ports@),
{
    let mut res: Vec<Vec<char>> = Vec::new();
    let mut i: usize = 0;
    while i < ports.len()
        invariant
            i <= ports.len(),
            vv(res@) == port_texts(ports@.take(i as int)),
        decreases ports.len() - i,
    {
        let ghost before = res@;
        res.push(dec_chars(ports[i] as u64));
        assert(vv(res@) =~= port_texts(ports@.take(i + 1))) by {
            assert(vv(res@) =~= vv(before).push(dec(ports@[i as int] as nat)));
        }
        i = i + 1;
    }
    assert(ports@.take(ports.len() as int) =~= ports@);
    res
}

/// The ports joined with `sep`.
pub fn join_ports(ports: &Vec<u16>, sep: &str) -> (res: String)
    ensures
        res@ == join(port_texts(ports@), sep@),
{
    let t = port_texts_exec(ports);
    string_from_chars(&join_chars(&t, sep))
}

/// The description of the security group: the SSH port, and the public
/// ports in list notation when there are any.
pub open spec fn security_group_description_spec(ssh_port: u16, ports: Seq<u16>) -> Seq<char> {
    "Temporary hu-spawned instance (SSH:"@ + dec(ssh_port as nat) + (if ports.len() == 0 {
        seq![]
    } else {
        ", Public:["@ + join(port_texts(ports), ", "@) + "]"@
    }) + ")"@
}

/// Description of the temporary security group.
pub fn security_group_description(ssh_port: u16, public_ports: &Vec<u16>) -> (res: String)
    ensures
        res@ == security_group_description_spec(ssh_port, public_ports@),
{
    let mut out: Vec<char> = Vec::new();
    push_str(&mut out, "Temporary hu-spawned instance (SSH:");
    push_chars(&mut out, &dec_chars(ssh_port as u64));
    if public_ports.len() > 0 {
        push_str(&mut out, ", Public:[");
        let j = join_ports(public_ports, ", ");
        push_str(&mut out, j.as_str());
        push_str(&mut out, "]");
    }
    push_str(&mut out, ")");
    string_from_chars(&out)
}

/// `prefix` followed by the decimal form of `n`.
pub fn prefixed_number(prefix: &str, n: u64) -> (res: String)
    ensures
        res@ == prefix@ + dec(n as nat),
{
    let mut out = chars_of(prefix);
    push_chars(&mut out, &dec_chars(n));
    string_from_chars(&out)
}

/// Name of the key pair created at `timestamp`.
pub fn key_name_for(timestamp: u64) -> (res: String)
    ensures
        res@ == "hu-"@ + dec(timestamp as nat),
{
    prefixed_number("hu-", timestamp)
}

/// Name of the security group created at `timestamp`.
pub fn security_group_name_for(timestamp: u64) -> (res: String)
    ensures
        res@ == "hu-temp-"@ + dec(timestamp as nat),
{
    prefixed_number("hu-temp-", timestamp)
}

/// The address range of a single IPv4 address.
pub fn single_host_cidr(ip: &str) -> (res: String)
    ensures
        res@ == ip@ + "/32"@,
{
    let mut out = chars_of(ip);
    push_str(&mut out, "/32");
    string_from_chars(&out)
}

/// Description of the ingress rule of a public port.
pub fn public_port_rule_description(port: u16) -> (res: String)
    ensures
        res@ == "Port "@ + dec(port as nat) + " public"@,
{
    let mut out = chars_of("Port ");
    push_chars(&mut out, &dec_chars(port as u64));
    push_str(&mut out, " public");
    string_from_chars(&out)
}

/// The views of ingress rules.
pub open spec fn rules_view(v: Seq<(u16, String, String)>) -> Seq<(u16, Seq<char>, Seq<char>)> {
    v.map_values(|r: (u16, String, String)| (r.0, r.1@, r.2@))
}

/// The ingress rules of the temporary security group, in order, each a TCP
/// port, the address range it is open to and a description: the SSH port
/// from the caller's address only, then each public port from anywhere.
pub open spec fn ingress_rules_spec(ssh_port: u16, ports: Seq<u16>, my_ip: Seq<char>) -> Seq<
    (u16, Seq<char>, Seq<char>),
> {
    seq![(ssh_port, my_ip + "/32"@, "SSH from my IP"@)] + Seq::new(
        ports.len(),
        |i: int| (ports[i], "0.0.0.0/0"@, "Port "@ + dec(ports[i] as nat) + " public"@),
    )
}

/// The ingress rules of the temporary security group.
pub fn ingress_rules(ssh_port: u16, public_ports: &Vec<u16>, my_ip: &str) -> (res: Vec<(u16, String, String)>)
    ensures
        rules_view(res@) == ingress_rules_spec(ssh_port, public_ports@, my_ip@),
{
    let mut res: Vec<(u16, String, String)> = Vec::new();
    res.push((ssh_port, single_host_cidr(my_ip), "SSH from my IP".to_string()));
    let mut i: usize = 0;
    while i < public_ports.len()
        invariant
            i <= public_ports.len(),
            rules_view(res@) == ingress_rules_spec(ssh_port, public_ports@.take(i as int), my_ip@),
        decreases public_ports.len() - i,
    {
        let port = public_ports[i];
        let ghost before = res@;
        res.push((port, "0.0.0.0/0".to_string(), public_port_rule_description(port)));
        assert(rules_view(res@) =~= rules_view(before).push(
            (port, "0.0.0.0/0"@, "Port "@ + dec(port as nat) + " public"@),
        ));
        assert(ingress_rules_spec(ssh_port, public_ports@.take(i + 1), my_ip@) =~= ingress_rules_spec(
            ssh_port,
            public_ports@.take(i as int),
            my_ip@,
        ).push((port, "0.0.0.0/0"@, "Port "@ + dec(port as nat) + " public"@)));
        i = i + 1;
    }
    assert(public_ports@.take(public_ports.len() as int) =~= public_ports@);
    res
}

/// The tags of a spawned instance, in order: its name, the managed marker,
/// the key pair, the security group, the SSH port and the public ports.
pub open spec fn spawn_tags_spec(
    timestamp: u64,
    key_name: Seq<char>,
    sg_id: Seq<char>,
    ssh_port: u16,
    ports: Seq<u16>,
) -> Seq<(Seq<char>, Seq<char>)> {
    seq![
        ("Name"@, "hu-spawned-"@ + dec(timestamp as nat)),
        ("hu-managed"@, "true"@),
        ("hu-key-name"@, key_name),
        ("hu-sg-id"@, sg_id),
        ("hu-ssh-port"@, dec(ssh_port as nat)),
        ("hu-public-ports"@, join(port_texts(ports), ","@)),
    ]
}

/// The views of key/value pairs.
pub open spec fn pairs_view(v: Seq<(String, String)>) -> Seq<(Seq<char>, Seq<char>)> {
    v.map_values(|p: (String, String)| (p.0@, p.1@))
}

/// The tags put on a spawned instance.
pub fn spawn_tags(
    timestamp: u64,
    key_name: &str,
    sg_id: &str,
    ssh_port: u16,
    public_ports: &Vec<u16>,
) -> (res: Vec<(String, String)>)
    ensures
        pairs_view(res@) == spawn_tags_spec(timestamp, key_name@, sg_id@, ssh_port, public_ports@),
{
    let mut res: Vec<(String, String)> = Vec::new();
    res.push(("Name".to_string(), prefixed_number("hu-spawned-", timestamp)));
    res.push(("hu-managed".to_string(), "true".to_string()));
    res.push(("hu-key-name".to_string(), key_name.to_string()));
    res.push(("hu-sg-id".to_string(), sg_id.to_string()));
    res.push(("hu-ssh-port".to_string(), string_from_chars(&dec_chars(ssh_port as u64))));
    res.push(("hu-public-ports".to_string(), join_ports(public_ports, ",")));
    assert(pairs_view(res@) =~= spawn_tags_spec(timestamp, key_name@, sg_id@, ssh_port, public_ports@));
    res
}

/// One look at a launching instance: its public IP once it is running and
/// has one, else nothing yet.
pub fn running_public_ip(state: &str, public_ip: Option<String>) -> (res: Option<String>)
    ensures
        res == (if state@ == "running"@ {
            public_ip
        } else {
            None
        }),
{
    if chars_eq_str(&chars_of(state), "running") {
        public_ip
    } else {
        None
    }
}

/// Text order: character by character by code point, a proper prefix
/// first (the order of `str`, as UTF-8 keeps code point order).
pub open spec fn text_lt(a: Seq<char>, b: Seq<char>) -> bool
    decreases a.len(),
{
    if a.len() == 0 {
        b.len() > 0
    } else if b.len() == 0 {
        false
    } else if a[0] != b[0] {
        a[0] < b[0]
    } else {
        text_lt(a.drop_first(), b.drop_first())
    }
}

fn text_lt_exec(a: &Vec<char>, b: &Vec<char>) -> (res: bool)
    ensures
        res == text_lt(a@, b@),
{
    let mut i: usize = 0;
    assert(a@.skip(0) =~= a@);
    assert(b@.skip(0) =~= b@);
    while i < a.len() && i < b.len() && a[i] == b[i]
        invariant
            i <= a.len(),
            i <= b.len(),
            text_lt(a@, b@) == text_lt(a@.skip(i as int), b@.skip(i as int)),
        decreases a.len() - i,
    {
        assert(a@.skip(i as int).drop_first() =~= a@.skip(i + 1));
        assert(b@.skip(i as int).drop_first() =~= b@.skip(i + 1));
        i = i + 1;
    }
    if i == a.len() {
        i < b.len()
    } else if i == b.len() {
        false
    } else {
        a[i] < b[i]
    }
}

/// The creation date an image is sorted by (empty when it has none).
pub open spec fn image_date(img: (Option<String>, Option<String>)) -> Seq<char> {
    match img.0 {
        Some(d) => d@,
        None => seq![],
    }
}

/// The position of the newest of the first `k` images: the first one with
/// the latest creation date.
pub open spec fn newest_position(images: Seq<(Option<String>, Option<String>)>, k: nat) -> Option<int>
    decreases k,
{
    if k == 0 {
        None
    } else {
        match newest_position(images, (k - 1) as nat) {
            None => Some(k - 1),
            Some(b) => if text_lt(image_date(images[b]), image_date(images[k - 1])) {
                Some(k - 1)
            } else {
                Some(b)
            },
        }
    }
}

/// The id of the newest image, from `(creation date, image id)` pairs: the
/// first image once they are sorted by creation date, newest first (a
/// stable sort); none when there is no image or it has no id.
pub fn latest_image_id(images: &Vec<(Option<String>, Option<String>)>) -> (res: Option<String>)
    ensures
        match newest_position(images@, images@.len()) {
            None => res is None,
            Some(b) => opt_text(res) == opt_text(images@[b].1),
        },
{
    let mut best: Option<usize> = None;
    let mut best_date: Vec<char> = Vec::new();
    let mut k: usize = 0;
    while k < images.len()
        invariant
            k <= images.len(),
            match best {
                None => newest_position(images@, k as nat) is None,
                Some(b) => newest_position(images@, k as nat) == Some(b as int) && b < k
                    && best_date@ == image_date(images@[b as int]),
            },
            k > 0 ==> best is Some,
        decreases images.len() - k,
    {
        let date: Vec<char> = match &images[k].0 {
            Some(d) => chars_of(d.as_str()),
            None => Vec::new(),
        };
        assert(date@ == image_date(images@[k as int]));
        match best {
            None => {
                best = Some(k);
                best_date = date;
            },
            Some(_) => {
                if text_lt_exec(&best_date, &date) {
                    best = Some(k);
                    best_date = date;
                }
            },
        }
        k = k + 1;
    }
    match best {
        None => None,
        Some(b) => match &images[b].1 {
            Some(id) => Some(id.clone()),
            None => None,
        },
    }
}

/// Whether a terminating instance has reached `terminated`.
pub fn is_terminated(state: &str) -> (res: bool)
    ensures
        res == (state@ == "terminated"@),
{
    chars_eq_str(&chars_of(state), "terminated")
}

/// The value of the last tag whose key is `key` (a tag without a value
/// counts as none); none when no tag has that key.
pub open spec fn last_tag_value(tags: Seq<(Option<String>, Option<String>)>, key: Seq<char>) -> Option<
    Seq<char>,
>
    decreases tags.len(),
{
    if tags.len() == 0 {
        None
    } else {
        let t = tags.last();
        if t.0 matches Some(k) && k@ == key {
            match t.1 {
                Some(v) => Some(v@),
                None => None,
            }
        } else {
            last_tag_value(tags.drop_last(), key)
        }
    }
}

/// The key pair and the security group a spawned instance's tags name.
pub fn managed_resources(tags: &Vec<(Option<String>, Option<String>)>) -> (res: (
    Option<String>,
    Option<String>,
))
    ensures
        opt_text(res.0) == last_tag_value(tags@, "hu-key-name"@),
        opt_text(res.1) == last_tag_value(tags@, "hu-sg-id"@),
{
    let mut key_name: Option<String> = None;
    let mut sg_id: Option<String> = None;
    let mut i: usize = 0;
    proof {
        assert(tags@.take(0) =~= Seq::<(Option<String>, Option<String>)>::empty());
        reveal_strlit("hu-key-name");
        reveal_strlit("hu-sg-id");
        assert("hu-key-name"@ != "hu-sg-id"@) by {
            assert("hu-key-name"@.len() != "hu-sg-id"@.len());
        }
    }
    while i < tags.len()
        invariant
            i <= tags.len(),
            opt_text(key_name) == last_tag_value(tags@.take(i as int), "hu-key-name"@),
            opt_text(sg_id) == last_tag_value(tags@.take(i as int), "hu-sg-id"@),
            "hu-key-name"@ != "hu-sg-id"@,
        decreases tags.len() - i,
    {
        assert(tags@.take(i + 1).drop_last() =~= tags@.take(i as int));
        let (k, v) = &tags[i];
        if let Some(k) = k {
            let kc = chars_of(k.as_str());
            if chars_eq_str(&kc, "hu-key-name") {
                key_name = v.clone();
            } else if chars_eq_str(&kc, "hu-sg-id") {
                sg_id = v.clone();
            }
        }
        i = i + 1;
    }
    assert(tags@.take(tags.len() as int) =~= tags@);
    (key_name, sg_id)
}

/// The file name of a key pair's local key.
pub fn key_file_name(key_name: &str) -> (res: String)
    ensures
        res@ == key_name@ + ".pem"@,
{
    let mut out = chars_of(key_name);
    push_str(&mut out, ".pem");
    string_from_chars(&out)
}

/// The command that connects to a spawned instance.
pub fn ssh_command(instance: &SpawnedInstance) -> (res: String)
    ensures
        res@ == "ssh -i "@ + instance.key_path@ + " -p "@ + dec(instance.ssh_port as nat)
            + " ec2-user@"@ + instance.public_ip@,
{
    let mut out = chars_of("ssh -i ");
    push_str(&mut out, instance.key_path.as_str());
    push_str(&mut out, " -p ");
    push_chars(&mut out, &dec_chars(instance.ssh_port as u64));
    push_str(&mut out, " ec2-user@");
    push_str(&mut out, instance.public_ip.as_str());
    string_from_chars(&out)
}

/// The command that removes a spawned instance again.
pub fn cleanup_command(instance_id: &str) -> (res: String)
    ensures
        res@ == "hu ec2 kill "@ + instance_id@,
{
    let mut out = chars_of("hu ec2 kill ");
    push_str(&mut out, instance_id);
    string_from_chars(&out)
}

} // verus!
