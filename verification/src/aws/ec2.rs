//! Which EC2 instances a listing shows, and how each is shown.

use vstd::prelude::*;
use crate::text::{
    byte_len, chars_eq, chars_eq_str, chars_for_bytes, chars_for_bytes_exec, chars_of, contains,
    contains_exec, lower_text, opt_text, push_str, string_from_chars, sub_chars_take, to_lowercase,
};
use crate::aws::spawn::last_tag_value;

verus! {

/// Information about an EC2 instance
#[derive(Debug)]
pub struct Ec2Instance {
    pub instance_id: String,
    pub name: Option<String>,
    pub instance_type: String,
    pub state: String,
    pub private_ip: Option<String>,
    pub environment: Option<String>,
}

/// Filter options for listing EC2 instances
pub struct Ec2Filter {
    pub env: Option<String>,
    pub name_filter: Option<String>,
    pub show_all: bool,
    pub stopped_only: bool,
}

/// Whether a listing with filter `f` keeps instance `i`: terminated and
/// unnamed instances only with `show_all`; only stopped ones with
/// `stopped_only`; the environment tag equal to the one asked for; the name
/// containing the pattern, case-insensitively.
pub open spec fn passes(f: Ec2Filter, i: Ec2Instance) -> bool {
    &&& (f.show_all || i.state@ != "terminated"@)
    &&& (f.show_all || i.name is Some)
    &&& (f.stopped_only ==> i.state@ == "stopped"@)
    &&& (f.env matches Some(e) ==> (i.environment matches Some(ie) && ie@ == e@))
    &&& (f.name_filter matches Some(p) ==> (i.name matches Some(n) && contains(
        lower_text(n@),
        lower_text(p@),
    )))
}

/// The instances of `s` that pass `f`, in order.
pub open spec fn kept(s: Seq<Ec2Instance>, f: Ec2Filter) -> Seq<Ec2Instance>
    decreases s.len(),
{
    if s.len() == 0 {
        seq![]
    } else {
        let rest = kept(s.drop_last(), f);
        if passes(f, s.last()) {
            rest.push(s.last())
        } else {
            rest
        }
    }
}

fn str_eq(a: &str, b: &str) -> (r: bool)
    ensures
        r == (a@ == b@),
{
    chars_eq(&chars_of(a), &chars_of(b))
}

/// Whether the listing keeps this instance.
pub fn instance_passes(filter: &Ec2Filter, inst: &Ec2Instance) -> (r: bool)
    ensures
        r == passes(*filter, *inst),
{
    let state = chars_of(inst.state.as_str());
    if !filter.show_all && chars_eq_str(&state, "terminated") {
        return false;
    }
    if !filter.show_all && inst.name.is_none() {
        return false;
    }
    if filter.stopped_only && !chars_eq_str(&state, "stopped") {
        return false;
    }
    if let Some(env) = &filter.env {
        match &inst.environment {
            Some(ie) => {
                if !str_eq(ie.as_str(), env.as_str()) {
                    return false;
                }
            },
            None => {
                return false;
            },
        }
    }
    if let Some(pattern) = &filter.name_filter {
        match &inst.name {
            Some(n) => {
                let ln = to_lowercase(n.as_str());
                let lp = to_lowercase(pattern.as_str());
                if !contains_exec(&chars_of(ln.as_str()), &chars_of(lp.as_str())) {
                    return false;
                }
            },
            None => {
                return false;
            },
        }
    }
    true
}

/// The instances a listing shows, in the order they came.
pub fn filter_instances(instances: Vec<Ec2Instance>, filter: &Ec2Filter) -> (res: Vec<
    Ec2Instance,
>)
    ensures
        res@ == kept(instances@, *filter),
{
    let ghost all = instances@;
    assert(all.len() == instances.len());
    let mut rest = instances;
    let mut res: Vec<Ec2Instance> = Vec::new();
    let mut k: usize = 0;
    while rest.len() > 0
        invariant
            k + rest.len() == all.len(),
            all.len() <= usize::MAX,
            rest@ == all.skip(k as int),
            res@ == kept(all.take(k as int), *filter),
        decreases rest.len(),
    {
        let inst = rest.remove(0);
        assert(all.take(k + 1).drop_last() =~= all.take(k as int));
        assert(all[k as int] == inst);
        assert(rest@ =~= all.skip(k + 1));
        if instance_passes(filter, &inst) {
            res.push(inst);
        }
        k = k + 1;
    }
    assert(all.take(k as int) =~= all);
    res
}

/// The colour a listing gives a state.
#[derive(Debug, Clone, Copy, PartialEq, Eq, Structural)]
pub enum StateColor {
    Green,
    Red,
    Yellow,
    DarkGrey,
}

/// Running is green, stopped red, pending and stopping yellow, the rest grey.
pub open spec fn state_color_spec(state: Seq<char>) -> StateColor {
    if state == "running"@ {
        StateColor::Green
    } else if state == "stopped"@ {
        StateColor::Red
    } else if state == "pending"@ || state == "stopping"@ {
        StateColor::Yellow
    } else {
        StateColor::DarkGrey
    }
}

/// The colour of an instance state in a listing.
pub fn state_color(state: &str) -> (res: StateColor)
    ensures
        res == state_color_spec(state@),
{
    let s = chars_of(state);
    if chars_eq_str(&s, "running") {
        StateColor::Green
    } else if chars_eq_str(&s, "stopped") {
        StateColor::Red
    } else if chars_eq_str(&s, "pending") || chars_eq_str(&s, "stopping") {
        StateColor::Yellow
    } else {
        StateColor::DarkGrey
    }
}

/// The name shown for an instance: `-` when it has none.
pub open spec fn shown_name(name: Option<String>) -> Seq<char> {
    match name {
        Some(n) => n@,
        None => "-"@,
    }
}

/// Whether a name can be shortened where the listing cuts it: a name over
/// 30 bytes is cut after 27 bytes, which must end a character.
pub open spec fn name_cut_ok(name: Option<String>) -> bool {
    byte_len(shown_name(name)) > 30 ==> chars_for_bytes(shown_name(name), 27) is Some
}

/// The name column: names over 30 bytes keep their first 27 bytes and end
/// in `...`.
pub open spec fn name_column(name: Option<String>) -> Seq<char> {
    let n = shown_name(name);
    if byte_len(n) > 30 {
        n.take(chars_for_bytes(n, 27).unwrap() as int) + "..."@
    } else {
        n
    }
}

/// The text of an instance's name column.
pub fn display_name(name: &Option<String>) -> (res: String)
    requires
        name_cut_ok(*name),
    ensures
        res@ == name_column(*name),
{
    let n: &str = match name {
        Some(n) => n.as_str(),
        None => "-",
    };
    if n.len() <= 30 {
        return n.to_string();
    }
    let c = chars_of(n);
    match chars_for_bytes_exec(&c, 27) {
        Some(k) => {
            let mut out = sub_chars_take(&c, k);
            push_str(&mut out, "...");
            string_from_chars(&out)
        },
        None => n.to_string(),
    }
}

/// What an SSM connection request comes to.
#[derive(Debug)]
pub enum SsmTarget {
    /// The number is 0 or past the end of the list.
    InvalidNumber,
    /// The instance is not running; its label and state.
    NotRunning { label: String, state: String },
    /// Connect to the instance; its label and id.
    Connect { label: String, instance_id: String },
}

/// An instance's label: its name, or its id when it has none.
pub open spec fn instance_label(i: Ec2Instance) -> Seq<char> {
    match i.name {
        Some(n) => n@,
        None => i.instance_id@,
    }
}

/// Pick the instance numbered `num` (from 1) for an SSM session.
pub fn ssm_target(instances: &Vec<Ec2Instance>, num: usize) -> (res: SsmTarget)
    ensures
        (num == 0 || num > instances.len()) <==> res is InvalidNumber,
        res matches SsmTarget::NotRunning { label, state } ==> {
            let i = instances@[num - 1];
            &&& i.state@ != "running"@
            &&& label@ == instance_label(i)
            &&& state@ == i.state@
        },
        res matches SsmTarget::Connect { label, instance_id } ==> {
            let i = instances@[num - 1];
            &&& i.state@ == "running"@
            &&& label@ == instance_label(i)
            &&& instance_id@ == i.instance_id@
        },
{
    if num == 0 || num > instances.len() {
        return SsmTarget::InvalidNumber;
    }
    let inst = &instances[num - 1];
    let label = match &inst.name {
        Some(n) => n.clone(),
        None => inst.instance_id.clone(),
    };
    if !chars_eq_str(&chars_of(inst.state.as_str()), "running") {
        SsmTarget::NotRunning { label, state: inst.state.clone() }
    } else {
        SsmTarget::Connect { label, instance_id: inst.instance_id.clone() }
    }
}

/// The `Name` and `Environment` tags of an instance: the value of the last
/// tag with each key (a tag without a value counts as none).
pub fn instance_tags(tags: &Vec<(Option<String>, Option<String>)>) -> (res: (
    Option<String>,
    Option<String>,
))
    ensures
        opt_text(res.0) == last_tag_value(tags@, "Name"@),
        opt_text(res.1) == last_tag_value(tags@, "Environment"@),
{
    let mut name: Option<String> = None;
    let mut environment: Option<String> = None;
    let mut i: usize = 0;
    proof {
        reveal_strlit("Name");
        reveal_strlit("Environment");
        assert("Name"@ != "Environment"@) by {
            assert("Name"@.len() != "Environment"@.len());
        }
    }
    while i < tags.len()
        invariant
            i <= tags.len(),
            opt_text(name) == last_tag_value(tags@.take(i as int), "Name"@),
            opt_text(environment) == last_tag_value(tags@.take(i as int), "Environment"@),
            "Name"@ != "Environment"@,
        decreases tags.len() - i,
    {
        assert(tags@.take(i + 1).drop_last() =~= tags@.take(i as int));
        let (k, v) = &tags[i];
        if let Some(k) = k {
            let kc = chars_of(k.as_str());
            if chars_eq_str(&kc, "Name") {
                name = v.clone();
            } else if chars_eq_str(&kc, "Environment") {
                environment = v.clone();
            }
        }
        i = i + 1;
    }
    assert(tags@.take(tags.len() as int) =~= tags@);
    (name, environment)
}

} // verus!
