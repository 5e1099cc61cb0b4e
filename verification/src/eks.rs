//! EKS pods as `kubectl` reports them: readiness, restarts, age, and how a
//! listing shows them.

use vstd::prelude::*;
use crate::text::{chars_eq_str, chars_of, dec, dec_chars, push_chars, push_str, signed_dec, signed_dec_chars, string_from_chars};

verus! {

/// A pod as listed.
#[derive(Debug, Clone)]
pub struct Pod {
    pub name: String,
    pub namespace: String,
    pub status: String,
    pub ready: String,
    pub restarts: u32,
    pub age: String,
    pub node: Option<String>,
}

/// Which cluster context and namespace `kubectl` is pointed at.
#[derive(Debug, Clone)]
pub struct KubectlConfig {
    pub context: Option<String>,
    pub namespace: Option<String>,
}

impl Default for KubectlConfig {
    fn default() -> (res: Self)
        ensures
            res.context is None,
            res.namespace is None,
    {
        KubectlConfig { context: None, namespace: None }
    }
}

/// How a listing is written.
#[derive(Debug, Clone, Copy, PartialEq, Eq, Structural)]
pub enum OutputFormat {
    Table,
    Json,
}

impl Default for OutputFormat {
    fn default() -> (res: Self)
        ensures
            res == OutputFormat::Table,
    {
        OutputFormat::Table
    }
}

/// The pods `kubectl get pods -o json` reports.
#[derive(Debug)]
pub struct PodList {
    pub items: Vec<PodItem>,
}

/// One pod of a `kubectl` JSON listing.
#[derive(Debug)]
pub struct PodItem {
    pub metadata: PodMetadata,
    pub spec: Option<PodSpec>,
    pub status: PodStatus,
}

/// A pod's name, namespace and creation time.
#[derive(Debug)]
pub struct PodMetadata {
    pub name: String,
    pub namespace: String,
    pub creation_timestamp: Option<String>,
}

/// The node a pod runs on and its containers.
#[derive(Debug)]
pub struct PodSpec {
    pub node_name: Option<String>,
    pub containers: Vec<Container>,
}

impl Default for PodSpec {
    fn default() -> (res: Self)
        ensures
            res.node_name is None,
            res.containers@.len() == 0,
    {
        PodSpec { node_name: None, containers: Vec::new() }
    }
}

/// A container of a pod.
#[derive(Debug)]
pub struct Container {
    pub name: String,
}

/// A pod's phase and the state of its containers.
#[derive(Debug)]
pub struct PodStatus {
    pub phase: String,
    pub container_statuses: Vec<ContainerStatus>,
}

/// Whether a container is ready, and how often it restarted.
#[derive(Debug)]
pub struct ContainerStatus {
    pub name: String,
    pub ready: bool,
    pub restart_count: u32,
}

/// How many of the containers are ready.
pub open spec fn ready_count(cs: Seq<ContainerStatus>) -> nat
    decreases cs.len(),
{
    if cs.len() == 0 {
        0
    } else {
        ready_count(cs.drop_last()) + if cs.last().ready {
            1nat
        } else {
            0nat
        }
    }
}

/// The restarts of all the containers together.
pub open spec fn restart_sum(cs: Seq<ContainerStatus>) -> nat
    decreases cs.len(),
{
    if cs.len() == 0 {
        0
    } else {
        restart_sum(cs.drop_last()) + cs.last().restart_count as nat
    }
}

/// `READY/TOTAL`, as the READY column shows it.
pub open spec fn ready_text(cs: Seq<ContainerStatus>) -> Seq<char> {
    dec(ready_count(cs)) + "/"@ + dec(cs.len())
}

/// The instant an RFC 3339 timestamp names, as seconds since the Unix epoch
/// and the nanoseconds past that second, or none when the text is not RFC
/// 3339 (`chrono::DateTime::parse_from_rfc3339`).
pub uninterp spec fn rfc3339_instant(text: Seq<char>) -> Option<(i64, u32)>;

/// `chrono::DateTime::parse_from_rfc3339`, read back as `timestamp()` and
/// `timestamp_subsec_nanos()`. Its result is named by `rfc3339_instant`.
#[verifier::external_body]
fn parse_rfc3339(text: &str) -> (res: Option<(i64, u32)>)
    ensures
        res == rfc3339_instant(text@),
{
    match chrono::DateTime::parse_from_rfc3339(text) {
        Ok(d) => Some((d.timestamp(), d.timestamp_subsec_nanos())),
        Err(_) => None,
    }
}

/// `chrono::Utc::now()` as seconds and nanoseconds. Nothing is stated of
/// the value: it is the time.
#[verifier::external_body]
fn utc_now() -> (res: (i64, u32)) {
    let n = chrono::Utc::now();
    (n.timestamp(), n.timestamp_subsec_nanos())
}

/// Division rounding toward zero, for a positive divisor.
pub open spec fn trunc_div(a: int, b: int) -> int {
    if a >= 0 {
        a / b
    } else {
        -((-a) / b)
    }
}

/// The whole seconds from `created` to `now`, rounded toward zero (as
/// chrono's `num_seconds` gives them).
pub open spec fn whole_seconds(created: (i64, u32), now: (i64, u32)) -> int {
    trunc_div((now.0 - created.0) * 1_000_000_000 + (now.1 - created.1), 1_000_000_000)
}

/// An age as the AGE column shows it: whole days, else hours, else
/// minutes, else seconds.
pub open spec fn age_text(secs: int) -> Seq<char> {
    let d = trunc_div(secs, 86400);
    let h = trunc_div(secs, 3600);
    let m = trunc_div(secs, 60);
    if d > 0 {
        dec(d as nat) + "d"@
    } else if h > 0 {
        dec(h as nat) + "h"@
    } else if m > 0 {
        dec(m as nat) + "m"@
    } else {
        signed_dec(secs) + "s"@
    }
}

fn trunc_div_exec(a: i128, b: i128) -> (res: i128)
    requires
        b > 0,
        a > i128::MIN,
    ensures
        res == trunc_div(a as int, b as int),
{
    if a >= 0 {
        a / b
    } else {
        -((-a) / b)
    }
}

/// The age of something created at `created`, seen at `now`.
pub fn age_from(created: (i64, u32), now: (i64, u32)) -> (res: String)
    ensures
        res@ == age_text(whole_seconds(created, now)),
{
    let total: i128 = (now.0 as i128 - created.0 as i128) * 1_000_000_000 + (now.1 as i128
        - created.1 as i128);
    let secs = trunc_div_exec(total, 1_000_000_000);
    let d = trunc_div_exec(secs, 86400);
    let h = trunc_div_exec(secs, 3600);
    let m = trunc_div_exec(secs, 60);
    let mut out: Vec<char>;
    if d > 0 {
        out = signed_dec_chars(d);
        push_str(&mut out, "d");
    } else if h > 0 {
        out = signed_dec_chars(h);
        push_str(&mut out, "h");
    } else if m > 0 {
        out = signed_dec_chars(m);
        push_str(&mut out, "m");
    } else {
        out = signed_dec_chars(secs);
        push_str(&mut out, "s");
    }
    string_from_chars(&out)
}

/// The age a pod shows: `-` without a creation time or with one that is
/// not RFC 3339; otherwise the age at the moment of the call.
pub open spec fn age_shown(ts: Option<String>, res: Seq<char>) -> bool {
    match ts {
        None => res == "-"@,
        Some(t) => match rfc3339_instant(t@) {
            None => res == "-"@,
            Some(c) => exists|now: (i64, u32)| res == age_text(whole_seconds(c, now)),
        },
    }
}

impl PodItem {
    /// The pod as a listing shows it.
    pub fn to_pod(&self) -> (res: Pod)
        requires
            restart_sum(self.status.container_statuses@) <= u32::MAX,
        ensures
            res.name@ == self.metadata.name@,
            res.namespace@ == self.metadata.namespace@,
            res.status@ == self.status.phase@,
            res.ready@ == ready_text(self.status.container_statuses@),
            res.restarts == restart_sum(self.status.container_statuses@),
            age_shown(self.metadata.creation_timestamp, res.age@),
            res.node == (match self.spec {
                Some(s) => s.node_name,
                None => None,
            }),
    {
        let ready = self.ready_string();
        let restarts = self.total_restarts();
        let age = self.age_string();
        let node = match &self.spec {
            Some(s) => s.node_name.clone(),
            None => None,
        };
        Pod {
            name: self.metadata.name.clone(),
            namespace: self.metadata.namespace.clone(),
            status: self.status.phase.clone(),
            ready,
            restarts,
            age,
            node,
        }
    }

    /// Get ready string (e.g., "1/1", "0/2")
    pub fn ready_string(&self) -> (res: String)
        ensures
            res@ == ready_text(self.status.container_statuses@),
    {
        let cs = &self.status.container_statuses;
        let mut ready: usize = 0;
        let mut i: usize = 0;
        while i < cs.len()
            invariant
                i <= cs.len(),
                ready == ready_count(cs@.take(i as int)),
                ready <= i,
            decreases cs.len() - i,
        {
            assert(cs@.take(i + 1).drop_last() =~= cs@.take(i as int));
            if cs[i].ready {
                ready = ready + 1;
            }
            i = i + 1;
        }
        assert(cs@.take(cs.len() as int) =~= cs@);
        let mut out = dec_chars(ready as u64);
        push_str(&mut out, "/");
        push_chars(&mut out, &dec_chars(cs.len() as u64));
        string_from_chars(&out)
    }

    /// Get total restart count
    pub fn total_restarts(&self) -> (res: u32)
        requires
            restart_sum(self.status.container_statuses@) <= u32::MAX,
        ensures
            res == restart_sum(self.status.container_statuses@),
    {
        let cs = &self.status.container_statuses;
        let mut total: u32 = 0;
        let mut i: usize = 0;
        while i < cs.len()
            invariant
                i <= cs.len(),
                total == restart_sum(cs@.take(i as int)),
                restart_sum(cs@) <= u32::MAX,
            decreases cs.len() - i,
        {
            assert(cs@.take(i + 1).drop_last() =~= cs@.take(i as int));
            proof {
                lemma_restart_sum_prefix(cs@, i + 1);
            }
            total = total + cs[i].restart_count;
            i = i + 1;
        }
        assert(cs@.take(cs.len() as int) =~= cs@);
        total
    }

    /// Get age string from creation timestamp
    pub fn age_string(&self) -> (res: String)
        ensures
            age_shown(self.metadata.creation_timestamp, res@),
    {
        let ts = match &self.metadata.creation_timestamp {
            Some(ts) => ts,
            None => {
                return "-".to_string();
            },
        };
        let created = match parse_rfc3339(ts.as_str()) {
            Some(c) => c,
            None => {
                return "-".to_string();
            },
        };
        let now = utc_now();
        let res = age_from(created, now);
        assert(res@ == age_text(whole_seconds(created, now)));
        res
    }
}

/// A prefix of the containers restarts no more often than all of them.
pub proof fn lemma_restart_sum_prefix(cs: Seq<ContainerStatus>, k: int)
    requires
        0 <= k <= cs.len(),
    ensures
        restart_sum(cs.take(k)) <= restart_sum(cs),
    decreases cs.len() - k,
{
    if k < cs.len() {
        lemma_restart_sum_prefix(cs, k + 1);
        assert(cs.take(k + 1).drop_last() =~= cs.take(k));
    } else {
        assert(cs.take(k) =~= cs);
    }
}

/// The colour a listing gives a pod phase.
#[derive(Debug, Clone, Copy, PartialEq, Eq, Structural)]
pub enum PhaseColor {
    Green,
    Yellow,
    Cyan,
    Red,
    DarkGrey,
    White,
}

/// Running green, Pending yellow, Succeeded cyan, Failed red, Unknown grey,
/// anything else white.
pub open spec fn phase_color(status: Seq<char>) -> PhaseColor {
    if status == "Running"@ {
        PhaseColor::Green
    } else if status == "Pending"@ {
        PhaseColor::Yellow
    } else if status == "Succeeded"@ {
        PhaseColor::Cyan
    } else if status == "Failed"@ {
        PhaseColor::Red
    } else if status == "Unknown"@ {
        PhaseColor::DarkGrey
    } else {
        PhaseColor::White
    }
}

/// Get color for pod status
pub fn status_color(status: &str) -> (res: PhaseColor)
    ensures
        res == phase_color(status@),
{
    let s = chars_of(status);
    if chars_eq_str(&s, "Running") {
        PhaseColor::Green
    } else if chars_eq_str(&s, "Pending") {
        PhaseColor::Yellow
    } else if chars_eq_str(&s, "Succeeded") {
        PhaseColor::Cyan
    } else if chars_eq_str(&s, "Failed") {
        PhaseColor::Red
    } else if chars_eq_str(&s, "Unknown") {
        PhaseColor::DarkGrey
    } else {
        PhaseColor::White
    }
}

/// The column titles of a pod listing.
pub open spec fn pod_header_spec(show_namespace: bool) -> Seq<Seq<char>> {
    if show_namespace {
        seq!["NAMESPACE"@, "NAME"@, "READY"@, "STATUS"@, "RESTARTS"@, "AGE"@]
    } else {
        seq!["NAME"@, "READY"@, "STATUS"@, "RESTARTS"@, "AGE"@]
    }
}

/// The views of a sequence of string slices.
pub open spec fn strs_view(v: Seq<&str>) -> Seq<Seq<char>> {
    v.map_values(|s: &str| s@)
}

/// The views of a sequence of strings.
pub open spec fn strings_view(v: Seq<String>) -> Seq<Seq<char>> {
    v.map_values(|s: String| s@)
}

/// The column titles of a pod listing, with a namespace column when pods of
/// several namespaces may be listed.
pub fn pod_table_header(show_namespace: bool) -> (res: Vec<&'static str>)
    ensures
        strs_view(res@) == pod_header_spec(show_namespace),
{
    let mut res: Vec<&'static str> = Vec::new();
    if show_namespace {
        res.push("NAMESPACE");
    }
    res.push("NAME");
    res.push("READY");
    res.push("STATUS");
    res.push("RESTARTS");
    res.push("AGE");
    assert(strs_view(res@) =~= pod_header_spec(show_namespace));
    res
}

/// The cells of a pod's row.
pub open spec fn pod_row_spec(p: Pod, show_namespace: bool) -> Seq<Seq<char>> {
    let rest = seq![p.name@, p.ready@, p.status@, dec(p.restarts as nat), p.age@];
    if show_namespace {
        seq![p.namespace@] + rest
    } else {
        rest
    }
}

/// The cells of a pod's row in a listing.
pub fn pod_row(pod: &Pod, show_namespace: bool) -> (res: Vec<String>)
    ensures
        strings_view(res@) == pod_row_spec(*pod, show_namespace),
{
    let mut res: Vec<String> = Vec::new();
    if show_namespace {
        res.push(pod.namespace.clone());
    }
    res.push(pod.name.clone());
    res.push(pod.ready.clone());
    res.push(pod.status.clone());
    res.push(string_from_chars(&dec_chars(pod.restarts as u64)));
    res.push(pod.age.clone());
    assert(strings_view(res@) =~= pod_row_spec(*pod, show_namespace));
    res
}

/// What a pod listing asks of `kubectl` and how it is shown.
pub struct ListRequest {
    pub config: KubectlConfig,
    pub format: OutputFormat,
    pub show_namespace: bool,
}

/// The request a `list` command makes: JSON when asked for, and a
/// namespace column when all namespaces are listed or none was named.
pub fn list_request(
    namespace: Option<String>,
    all_namespaces: bool,
    context: Option<String>,
    json: bool,
) -> (res: ListRequest)
    ensures
        res.config.context == context,
        res.config.namespace == namespace,
        res.format == (if json {
            OutputFormat::Json
        } else {
            OutputFormat::Table
        }),
        res.show_namespace == (all_namespaces || namespace is None),
{
    let show_namespace = all_namespaces || namespace.is_none();
    ListRequest {
        config: KubectlConfig { context, namespace },
        format: if json {
            OutputFormat::Json
        } else {
            OutputFormat::Table
        },
        show_namespace,
    }
}

} // verus!
