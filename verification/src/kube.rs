//! The kubeconfig entries that connect `kubectl` to an EKS cluster, and the
//! `kubectl` invocations of a pod session.

use vstd::prelude::*;
use crate::text::{
    opt_str, byte_len, chars_eq, chars_for_bytes, chars_for_bytes_exec, chars_of, contains, contains_exec, dec, dec_chars, lines, lines_of, push_chars, push_str, string_from_chars, sub_chars, sv, vv, words, words_of,
};

verus! {

/// A value stored under a name in a kubeconfig list.
pub trait Named {
    /// The name, as text.
    spec fn key(&self) -> Seq<char>;

    /// The name.
    fn name_str(&self) -> (r: &str)
        ensures
            r@ == self.key(),
    ;
}

/// Where a cluster is and the authority its certificate comes from.
#[derive(Debug)]
pub struct ClusterData {
    pub certificate_authority_data: String,
    pub server: String,
}

/// A named cluster of a kubeconfig.
#[derive(Debug)]
pub struct KubeconfigCluster {
    pub name: String,
    pub cluster: ClusterData,
}

/// The cluster and user a context joins.
#[derive(Debug)]
pub struct ContextData {
    pub cluster: String,
    pub user: String,
}

/// A named context of a kubeconfig.
#[derive(Debug)]
pub struct KubeconfigContext {
    pub name: String,
    pub context: ContextData,
}

/// The credential plugin a user runs.
#[derive(Debug)]
pub struct ExecConfig {
    pub api_version: String,
    pub command: String,
    pub args: Vec<String>,
    pub env: Option<Vec<Vec<(String, String)>>>,
    pub interactive_mode: Option<String>,
    pub provide_cluster_info: Option<bool>,
}

/// How a user authenticates.
#[derive(Debug)]
pub struct UserData {
    pub exec_config: ExecConfig,
}

/// A named user of a kubeconfig.
#[derive(Debug)]
pub struct KubeconfigUser {
    pub name: String,
    pub user: UserData,
}

/// A kubeconfig file. `preferences` holds that section's YAML text, which
/// is carried through untouched.
#[derive(Debug)]
pub struct Kubeconfig {
    pub api_version: String,
    pub kind: String,
    pub clusters: Vec<KubeconfigCluster>,
    pub contexts: Vec<KubeconfigContext>,
    pub current_context: String,
    pub users: Vec<KubeconfigUser>,
    pub preferences: Option<String>,
}

impl Named for KubeconfigCluster {
    open spec fn key(&self) -> Seq<char> {
        self.name@
    }

    fn name_str(&self) -> (r: &str) {
        self.name.as_str()
    }
}

impl Named for KubeconfigContext {
    open spec fn key(&self) -> Seq<char> {
        self.name@
    }

    fn name_str(&self) -> (r: &str) {
        self.name.as_str()
    }
}

impl Named for KubeconfigUser {
    open spec fn key(&self) -> Seq<char> {
        self.name@
    }

    fn name_str(&self) -> (r: &str) {
        self.name.as_str()
    }
}

/// The kubeconfig used when none exists yet: version `v1`, kind `Config`,
/// nothing in it.
pub fn empty_kubeconfig() -> (res: Kubeconfig)
    ensures
        res.api_version@ == "v1"@,
        res.kind@ == "Config"@,
        res.clusters@.len() == 0,
        res.contexts@.len() == 0,
        res.users@.len() == 0,
        res.current_context@.len() == 0,
        res.preferences is None,
{
    Kubeconfig {
        api_version: "v1".to_string(),
        kind: "Config".to_string(),
        clusters: Vec::new(),
        contexts: Vec::new(),
        current_context: String::new(),
        users: Vec::new(),
        preferences: None,
    }
}

/// The first position at or after `i` of an entry named `k`.
pub open spec fn first_named_from<T: Named>(s: Seq<T>, k: Seq<char>, i: int) -> Option<int>
    decreases s.len() - i,
    when 0 <= i
{
    if i >= s.len() {
        None
    } else if s[i].key() == k {
        Some(i)
    } else {
        first_named_from(s, k, i + 1)
    }
}

/// The first position of an entry named `k`.
pub open spec fn first_named<T: Named>(s: Seq<T>, k: Seq<char>) -> Option<int> {
    first_named_from(s, k, 0)
}

/// `s` with `e` in place of the first entry of the same name, or `e` added
/// at the end when there is none.
pub open spec fn upserted<T: Named>(s: Seq<T>, e: T) -> Seq<T> {
    match first_named(s, e.key()) {
        Some(i) => s.update(i, e),
        None => s.push(e),
    }
}

/// What `first_named_from` finds: the first entry of the name at or after
/// `i`, or that there is none.
pub proof fn lemma_first_named_from<T: Named>(s: Seq<T>, k: Seq<char>, i: int)
    requires
        0 <= i,
    ensures
        first_named_from(s, k, i) matches Some(j) ==> i <= j < s.len() && s[j].key() == k
            && forall|m: int| i <= m < j ==> s[m].key() != k,
        first_named_from(s, k, i) is None ==> forall|m: int| i <= m < s.len() ==> s[m].key() != k,
    decreases s.len() - i,
{
    if i < s.len() && s[i].key() != k {
        lemma_first_named_from(s, k, i + 1);
    }
}

/// An entry named `k` at `j`, with none of that name before it, is the
/// first.
pub proof fn lemma_first_named_at<T: Named>(s: Seq<T>, k: Seq<char>, i: int, j: int)
    requires
        0 <= i <= j < s.len(),
        s[j].key() == k,
        forall|m: int| i <= m < j ==> s[m].key() != k,
    ensures
        first_named_from(s, k, i) == Some(j),
    decreases j - i,
{
    if i < j {
        lemma_first_named_at(s, k, i + 1, j);
    }
}

/// Without an entry named `k` from `i` on, there is none to find.
pub proof fn lemma_first_named_none<T: Named>(s: Seq<T>, k: Seq<char>, i: int)
    requires
        0 <= i,
        forall|m: int| i <= m < s.len() ==> s[m].key() != k,
    ensures
        first_named_from(s, k, i) is None,
    decreases s.len() - i,
{
    if i < s.len() {
        lemma_first_named_none(s, k, i + 1);
    }
}

/// Putting an entry in twice leaves the list as putting it in once.
pub proof fn lemma_upsert_idempotent<T: Named>(s: Seq<T>, e: T)
    ensures
        upserted(upserted(s, e), e) == upserted(s, e),
{
    let k = e.key();
    let u = upserted(s, e);
    lemma_first_named_from(s, k, 0);
    match first_named(s, k) {
        Some(i) => {
            assert forall|m: int| 0 <= m < i implies u[m].key() != k by {
                assert(u[m] == s[m]);
            }
            lemma_first_named_at(u, k, 0, i);
            assert(u.update(i, e) =~= u);
        },
        None => {
            assert forall|m: int| 0 <= m < s.len() implies u[m].key() != k by {
                assert(u[m] == s[m]);
            }
            lemma_first_named_at(u, k, 0, s.len() as int);
            assert(u.update(s.len() as int, e) =~= u);
        },
    }
}

/// After putting an entry in, it is the first of its name, and the first
/// entry of any other name is the one that was first before.
pub proof fn lemma_upsert_lookup<T: Named>(s: Seq<T>, e: T, k: Seq<char>)
    ensures
        first_named(upserted(s, e), e.key()) matches Some(i) && upserted(s, e)[i] == e,
        k != e.key() ==> first_named(upserted(s, e), k) == first_named(s, k),
        k != e.key() ==> (first_named(s, k) matches Some(j) ==> upserted(s, e)[j] == s[j]),
{
    let ek = e.key();
    let u = upserted(s, e);
    lemma_first_named_from(s, ek, 0);
    lemma_first_named_from(s, k, 0);
    match first_named(s, ek) {
        Some(i) => {
            assert forall|m: int| 0 <= m < i implies u[m].key() != ek by {
                assert(u[m] == s[m]);
            }
            lemma_first_named_at(u, ek, 0, i);
        },
        None => {
            assert forall|m: int| 0 <= m < s.len() implies u[m].key() != ek by {
                assert(u[m] == s[m]);
            }
            lemma_first_named_at(u, ek, 0, s.len() as int);
        },
    }
    if k != ek {
        match first_named(s, k) {
            Some(j) => {
                assert forall|m: int| 0 <= m < j implies u[m].key() != k by {
                    if m < s.len() {
                        if first_named(s, ek) != Some(m) {
                            assert(u[m] == s[m]);
                        }
                    }
                }
                if first_named(s, ek) == Some(j) {
                    assert(false);
                }
                assert(u[j] == s[j]);
                lemma_first_named_at(u, k, 0, j);
            },
            None => {
                assert forall|m: int| 0 <= m < u.len() implies u[m].key() != k by {
                    if m < s.len() {
                        if first_named(s, ek) != Some(m) {
                            assert(u[m] == s[m]);
                        }
                    }
                }
                lemma_first_named_none(u, k, 0);
            },
        }
    }
}

/// Put `e` in place of the first entry of its name, or add it at the end.
pub fn upsert<T: Named>(v: &mut Vec<T>, e: T)
    ensures
        final(v)@ == upserted(old(v)@, e),
{
    let key = chars_of(e.name_str());
    let mut i: usize = 0;
    while i < v.len()
        invariant
            i <= v.len(),
            key@ == e.key(),
            v@ == old(v)@,
            first_named(v@, e.key()) == first_named_from(v@, e.key(), i as int),
        decreases v.len() - i,
    {
        if chars_eq(&chars_of(v[i].name_str()), &key) {
            v.set(i, e);
            return;
        }
        i = i + 1;
    }
    v.push(e);
}

/// The arguments of `aws eks get-token` for a cluster, with the profile
/// when one is given.
pub open spec fn token_args(region: Seq<char>, cluster_name: Seq<char>, profile: Option<Seq<char>>) -> Seq<
    Seq<char>,
> {
    let base = seq![
        "--region"@,
        region,
        "eks"@,
        "get-token"@,
        "--cluster-name"@,
        cluster_name,
        "--output"@,
        "json"@,
    ];
    match profile {
        Some(p) => base + seq!["--profile"@, p],
        None => base,
    }
}

/// The arguments the credential plugin runs `aws` with.
pub fn token_exec_args(region: &str, cluster_name: &str, profile: Option<&str>) -> (res: Vec<String>)
    ensures
        sv(res@) == token_args(region@, cluster_name@, opt_str(profile)),
{
    let mut args: Vec<String> = Vec::new();
    args.push("--region".to_string());
    args.push(region.to_string());
    args.push("eks".to_string());
    args.push("get-token".to_string());
    args.push("--cluster-name".to_string());
    args.push(cluster_name.to_string());
    args.push("--output".to_string());
    args.push("json".to_string());
    if let Some(p) = profile {
        args.push("--profile".to_string());
        args.push(p.to_string());
    }
    assert(sv(args@) =~= token_args(region@, cluster_name@, opt_str(profile)));
    args
}

/// The cluster entry for an EKS cluster: named by its ARN.
pub open spec fn is_cluster_entry(c: KubeconfigCluster, arn: Seq<char>, ca: Seq<char>, endpoint: Seq<char>) -> bool {
    &&& c.name@ == arn
    &&& c.cluster.certificate_authority_data@ == ca
    &&& c.cluster.server@ == endpoint
}

/// The user entry for an EKS cluster: named by its ARN, authenticating
/// through `aws eks get-token`, never interactively.
pub open spec fn is_user_entry(
    u: KubeconfigUser,
    arn: Seq<char>,
    region: Seq<char>,
    cluster_name: Seq<char>,
    profile: Option<Seq<char>>,
) -> bool {
    &&& u.name@ == arn
    &&& u.user.exec_config.api_version@ == "client.authentication.k8s.io/v1beta1"@
    &&& u.user.exec_config.command@ == "aws"@
    &&& sv(u.user.exec_config.args@) == token_args(region, cluster_name, profile)
    &&& u.user.exec_config.env is None
    &&& u.user.exec_config.interactive_mode matches Some(m) && m@ == "Never"@
    &&& u.user.exec_config.provide_cluster_info is None
}

/// The context entry for an EKS cluster: its ARN names it, its cluster and
/// its user.
pub open spec fn is_context_entry(c: KubeconfigContext, arn: Seq<char>) -> bool {
    &&& c.name@ == arn
    &&& c.context.cluster@ == arn
    &&& c.context.user@ == arn
}

/// `after` is `before` pointed at an EKS cluster: its cluster, user and
/// context entries put in (each replacing the first of the same name), and
/// the context made current. Nothing else changes.
pub open spec fn cluster_applied(
    before: Kubeconfig,
    after: Kubeconfig,
    arn: Seq<char>,
    endpoint: Seq<char>,
    ca_data: Seq<char>,
    cluster_name: Seq<char>,
    profile: Option<Seq<char>>,
    region: Seq<char>,
) -> bool {
    &&& exists|c: KubeconfigCluster|
        is_cluster_entry(c, arn, ca_data, endpoint) && after.clusters@ == upserted(before.clusters@, c)
    &&& exists|u: KubeconfigUser|
        is_user_entry(u, arn, region, cluster_name, profile) && after.users@ == upserted(before.users@, u)
    &&& exists|c: KubeconfigContext|
        is_context_entry(c, arn) && after.contexts@ == upserted(before.contexts@, c)
    &&& after.current_context@ == arn
    &&& after.api_version == before.api_version
    &&& after.kind == before.kind
    &&& after.preferences == before.preferences
}

/// Putting in again an entry of the name just put in replaces that entry in
/// place: every other entry stays, and the list keeps its length.
pub proof fn lemma_upsert_again<T: Named>(s: Seq<T>, e1: T, e2: T)
    requires
        e1.key() == e2.key(),
    ensures
        first_named(upserted(s, e1), e1.key()) matches Some(i) && upserted(s, e1)[i] == e1
            && upserted(upserted(s, e1), e2) == upserted(s, e1).update(i, e2),
{
    lemma_upsert_lookup(s, e1, e1.key());
}

/// Pointing a kubeconfig at the same cluster a second time changes nothing
/// of its text: every entry stays, and the entries of the cluster's name are
/// replaced in place by entries with the same texts.
pub proof fn lemma_apply_cluster_twice(
    k0: Kubeconfig,
    k1: Kubeconfig,
    k2: Kubeconfig,
    arn: Seq<char>,
    endpoint: Seq<char>,
    ca_data: Seq<char>,
    cluster_name: Seq<char>,
    profile: Option<Seq<char>>,
    region: Seq<char>,
)
    requires
        cluster_applied(k0, k1, arn, endpoint, ca_data, cluster_name, profile, region),
        cluster_applied(k1, k2, arn, endpoint, ca_data, cluster_name, profile, region),
    ensures
        k2.clusters@.len() == k1.clusters@.len(),
        forall|i: int|
            0 <= i < k1.clusters@.len() ==> k2.clusters@[i] == k1.clusters@[i] || (is_cluster_entry(
                k1.clusters@[i],
                arn,
                ca_data,
                endpoint,
            ) && is_cluster_entry(k2.clusters@[i], arn, ca_data, endpoint)),
        k2.users@.len() == k1.users@.len(),
        forall|i: int|
            0 <= i < k1.users@.len() ==> k2.users@[i] == k1.users@[i] || (is_user_entry(
                k1.users@[i],
                arn,
                region,
                cluster_name,
                profile,
            ) && is_user_entry(k2.users@[i], arn, region, cluster_name, profile)),
        k2.contexts@.len() == k1.contexts@.len(),
        forall|i: int|
            0 <= i < k1.contexts@.len() ==> k2.contexts@[i] == k1.contexts@[i] || (is_context_entry(
                k1.contexts@[i],
                arn,
            ) && is_context_entry(k2.contexts@[i], arn)),
        k2.current_context@ == k1.current_context@,
        k2.api_version == k1.api_version,
        k2.kind == k1.kind,
        k2.preferences == k1.preferences,
{
    let c1 = choose|c: KubeconfigCluster|
        is_cluster_entry(c, arn, ca_data, endpoint) && k1.clusters@ == upserted(k0.clusters@, c);
    let c2 = choose|c: KubeconfigCluster|
        is_cluster_entry(c, arn, ca_data, endpoint) && k2.clusters@ == upserted(k1.clusters@, c);
    assert(is_cluster_entry(c1, arn, ca_data, endpoint) && k1.clusters@ == upserted(k0.clusters@, c1));
    assert(is_cluster_entry(c2, arn, ca_data, endpoint) && k2.clusters@ == upserted(k1.clusters@, c2));
    lemma_upsert_again(k0.clusters@, c1, c2);
    let ci = first_named(k1.clusters@, arn).unwrap();
    lemma_first_named_from(k1.clusters@, arn, 0);
    assert(0 <= ci < k1.clusters@.len());
    assert(k2.clusters@ == k1.clusters@.update(ci, c2));
    assert forall|i: int| 0 <= i < k1.clusters@.len() implies k2.clusters@[i] == k1.clusters@[i] || (
    is_cluster_entry(k1.clusters@[i], arn, ca_data, endpoint) && is_cluster_entry(
        k2.clusters@[i],
        arn,
        ca_data,
        endpoint,
    )) by {
        if i == ci {
            assert(k1.clusters@[i] == c1);
        }
    }
    let u1 = choose|u: KubeconfigUser|
        is_user_entry(u, arn, region, cluster_name, profile) && k1.users@ == upserted(k0.users@, u);
    let u2 = choose|u: KubeconfigUser|
        is_user_entry(u, arn, region, cluster_name, profile) && k2.users@ == upserted(k1.users@, u);
    assert(is_user_entry(u1, arn, region, cluster_name, profile) && k1.users@ == upserted(k0.users@, u1));
    assert(is_user_entry(u2, arn, region, cluster_name, profile) && k2.users@ == upserted(k1.users@, u2));
    lemma_upsert_again(k0.users@, u1, u2);
    let ui = first_named(k1.users@, arn).unwrap();
    lemma_first_named_from(k1.users@, arn, 0);
    assert(0 <= ui < k1.users@.len());
    assert(k2.users@ == k1.users@.update(ui, u2));
    assert forall|i: int| 0 <= i < k1.users@.len() implies k2.users@[i] == k1.users@[i] || (
    is_user_entry(k1.users@[i], arn, region, cluster_name, profile) && is_user_entry(
        k2.users@[i],
        arn,
        region,
        cluster_name,
        profile,
    )) by {
        if i == ui {
            assert(k1.users@[i] == u1);
        }
    }
    let x1 = choose|c: KubeconfigContext|
        is_context_entry(c, arn) && k1.contexts@ == upserted(k0.contexts@, c);
    let x2 = choose|c: KubeconfigContext|
        is_context_entry(c, arn) && k2.contexts@ == upserted(k1.contexts@, c);
    assert(is_context_entry(x1, arn) && k1.contexts@ == upserted(k0.contexts@, x1));
    assert(is_context_entry(x2, arn) && k2.contexts@ == upserted(k1.contexts@, x2));
    lemma_upsert_again(k0.contexts@, x1, x2);
    let xi = first_named(k1.contexts@, arn).unwrap();
    lemma_first_named_from(k1.contexts@, arn, 0);
    assert(0 <= xi < k1.contexts@.len());
    assert(k2.contexts@ == k1.contexts@.update(xi, x2));
    assert forall|i: int| 0 <= i < k1.contexts@.len() implies k2.contexts@[i] == k1.contexts@[i] || (
    is_context_entry(k1.contexts@[i], arn) && is_context_entry(k2.contexts@[i], arn)) by {
        if i == xi {
            assert(k1.contexts@[i] == x1);
        }
    }
}

/// Point a kubeconfig at an EKS cluster: its cluster, user and context
/// entries put in (each replacing the first of the same name), and the
/// context made current. Nothing else changes.
pub fn apply_cluster(
    kubeconfig: &mut Kubeconfig,
    arn: &str,
    endpoint: &str,
    ca_data: &str,
    cluster_name: &str,
    profile: Option<&str>,
    region: &str,
)
    ensures
        cluster_applied(
            *old(kubeconfig),
            *final(kubeconfig),
            arn@,
            endpoint@,
            ca_data@,
            cluster_name@,
            opt_str(profile),
            region@,
        ),
{
    let cluster_entry = KubeconfigCluster {
        name: arn.to_string(),
        cluster: ClusterData {
            certificate_authority_data: ca_data.to_string(),
            server: endpoint.to_string(),
        },
    };
    let ghost ce = cluster_entry;
    upsert(&mut kubeconfig.clusters, cluster_entry);
    let user_entry = KubeconfigUser {
        name: arn.to_string(),
        user: UserData {
            exec_config: ExecConfig {
                api_version: "client.authentication.k8s.io/v1beta1".to_string(),
                command: "aws".to_string(),
                args: token_exec_args(region, cluster_name, profile),
                env: None,
                interactive_mode: Some("Never".to_string()),
                provide_cluster_info: None,
            },
        },
    };
    let ghost ue = user_entry;
    upsert(&mut kubeconfig.users, user_entry);
    let context_entry = KubeconfigContext {
        name: arn.to_string(),
        context: ContextData { cluster: arn.to_string(), user: arn.to_string() },
    };
    let ghost xe = context_entry;
    upsert(&mut kubeconfig.contexts, context_entry);
    kubeconfig.current_context = arn.to_string();
    assert(is_cluster_entry(ce, arn@, ca_data@, endpoint@));
    assert(is_user_entry(ue, arn@, region@, cluster_name@, opt_str(profile)));
    assert(is_context_entry(xe, arn@));
}

/// The pod names a `kubectl get pod --no-headers` listing gives for the
/// lines that contain `pattern`: the first word of each such line.
pub open spec fn pods_in(ls: Seq<Seq<char>>, pattern: Seq<char>) -> Seq<Seq<char>>
    decreases ls.len(),
{
    if ls.len() == 0 {
        seq![]
    } else {
        let rest = pods_in(ls.drop_last(), pattern);
        let l = ls.last();
        if contains(l, pattern) && words(l).len() > 0 {
            rest.push(words(l)[0])
        } else {
            rest
        }
    }
}

/// The pods of a listing whose line contains `pattern`; none when the
/// listing could not be had.
pub fn get_pods(kubectl_output: Option<&str>, pattern: &str) -> (res: Vec<String>)
    ensures
        kubectl_output is None ==> res@.len() == 0,
        kubectl_output matches Some(out) ==> sv(res@) == pods_in(lines(out@), pattern@),
{
    let out = match kubectl_output {
        Some(o) => o,
        None => {
            return Vec::new();
        },
    };
    let ls = lines_of(&chars_of(out));
    let p = chars_of(pattern);
    let mut res: Vec<String> = Vec::new();
    let mut i: usize = 0;
    while i < ls.len()
        invariant
            i <= ls.len(),
            vv(ls@) == lines(out@),
            p@ == pattern@,
            sv(res@) == pods_in(vv(ls@).take(i as int), pattern@),
        decreases ls.len() - i,
    {
        assert(vv(ls@).take(i + 1).drop_last() =~= vv(ls@).take(i as int));
        if contains_exec(&ls[i], &p) {
            let ws = words_of(&ls[i]);
            if ws.len() > 0 {
                let ghost before = res@;
                res.push(string_from_chars(&ws[0]));
                assert(sv(res@) =~= sv(before).push(ws@[0]@));
            }
        }
        i = i + 1;
    }
    assert(vv(ls@).take(ls.len() as int) =~= vv(ls@));
    res
}

/// Whether a pod name can be cut to its last five bytes: a name over five
/// bytes must have a character boundary there.
pub open spec fn short_id_ok(pod: Seq<char>) -> bool {
    byte_len(pod) > 5 ==> chars_for_bytes(pod, (byte_len(pod) - 5) as nat) is Some
}

/// The last five bytes of a pod name (all of it when shorter).
pub open spec fn short_id_spec(pod: Seq<char>) -> Seq<char> {
    if byte_len(pod) > 5 {
        pod.skip(chars_for_bytes(pod, (byte_len(pod) - 5) as nat).unwrap() as int)
    } else {
        pod
    }
}

/// The short id of a pod: the last five bytes of its name.
pub fn short_id(pod: &str) -> (res: String)
    requires
        short_id_ok(pod@),
    ensures
        res@ == short_id_spec(pod@),
{
    let n = pod.len();
    if n <= 5 {
        return pod.to_string();
    }
    let c = chars_of(pod);
    match chars_for_bytes_exec(&c, n - 5) {
        Some(k) => {
            let r = sub_chars(&c, k, c.len());
            assert(r@ =~= c@.skip(k as int));
            string_from_chars(&r)
        },
        None => pod.to_string(),
    }
}

/// The label of a pod session's prompt: environment, pod type and number.
pub open spec fn prompt_label_spec(env: Seq<char>, pod_type: Seq<char>, num: nat) -> Seq<char> {
    env + "-"@ + pod_type + "-"@ + dec(num)
}

/// The prompt label of a pod session.
pub fn prompt_label(env_name: &str, pod_type: &str, pod_num: usize) -> (res: String)
    ensures
        res@ == prompt_label_spec(env_name@, pod_type@, pod_num as nat),
{
    let mut out = chars_of(env_name);
    push_str(&mut out, "-");
    push_str(&mut out, pod_type);
    push_str(&mut out, "-");
    push_chars(&mut out, &dec_chars(pod_num as u64));
    string_from_chars(&out)
}

/// The shell command of a pod session: set the prompt, then a bare bash.
pub open spec fn ps1_command_spec(emoji: Seq<char>, label: Seq<char>) -> Seq<char> {
    "export PS1=\""@ + emoji + " \\[\\033[1;36m\\]"@ + label
        + "\\[\\033[0m\\] $ \"; exec bash --norc --noprofile"@
}

/// The shell command that starts a pod session.
pub fn ps1_command(emoji: &str, label: &str) -> (res: String)
    ensures
        res@ == ps1_command_spec(emoji@, label@),
{
    let mut out = chars_of("export PS1=\"");
    push_str(&mut out, emoji);
    push_str(&mut out, " \\[\\033[1;36m\\]");
    push_str(&mut out, label);
    push_str(&mut out, "\\[\\033[0m\\] $ \"; exec bash --norc --noprofile");
    string_from_chars(&out)
}

/// The `kubectl` arguments of a pod session: an interactive exec that sets
/// the session's variables and runs the prompt command.
pub open spec fn exec_args_spec(
    pod: Seq<char>,
    namespace: Seq<char>,
    env: Seq<char>,
    emoji: Seq<char>,
    pod_type: Seq<char>,
    num: nat,
) -> Seq<Seq<char>> {
    let label = prompt_label_spec(env, pod_type, num);
    seq![
        "exec"@,
        "-it"@,
        pod,
        "-n"@,
        namespace,
        "--"@,
        "env"@,
        "EKS_ENV="@ + env,
        "EKS_TYPE="@ + pod_type,
        "EKS_POD_NUM="@ + dec(num),
        "EKS_LABEL="@ + label,
        "EKS_EMOJI="@ + emoji,
        "bash"@,
        "-c"@,
        ps1_command_spec(emoji, label),
    ]
}

fn prefixed(prefix: &str, s: &str) -> (res: String)
    ensures
        res@ == prefix@ + s@,
{
    let mut out = chars_of(prefix);
    push_str(&mut out, s);
    string_from_chars(&out)
}

/// The arguments `kubectl` is run with to open a pod session.
pub fn pod_exec_args(
    pod: &str,
    namespace: &str,
    env_name: &str,
    emoji: &str,
    pod_type: &str,
    pod_num: usize,
) -> (res: Vec<String>)
    ensures
        sv(res@) == exec_args_spec(pod@, namespace@, env_name@, emoji@, pod_type@, pod_num as nat),
{
    let label = prompt_label(env_name, pod_type, pod_num);
    let num = string_from_chars(&dec_chars(pod_num as u64));
    let mut args: Vec<String> = Vec::new();
    args.push("exec".to_string());
    args.push("-it".to_string());
    args.push(pod.to_string());
    args.push("-n".to_string());
    args.push(namespace.to_string());
    args.push("--".to_string());
    args.push("env".to_string());
    args.push(prefixed("EKS_ENV=", env_name));
    args.push(prefixed("EKS_TYPE=", pod_type));
    args.push(prefixed("EKS_POD_NUM=", num.as_str()));
    args.push(prefixed("EKS_LABEL=", label.as_str()));
    args.push(prefixed("EKS_EMOJI=", emoji));
    args.push("bash".to_string());
    args.push("-c".to_string());
    args.push(ps1_command(emoji, label.as_str()));
    assert(sv(args@) =~= exec_args_spec(pod@, namespace@, env_name@, emoji@, pod_type@, pod_num as nat));
    args
}

/// The `kubectl` arguments that follow a log file inside a pod.
pub fn tail_log_args(pod: &str, namespace: &str, log_file: &str) -> (res: Vec<String>)
    ensures
        sv(res@) == seq!["exec"@, pod@, "-n"@, namespace@, "--"@, "tail"@, "-f"@, log_file@],
{
    let mut args: Vec<String> = Vec::new();
    args.push("exec".to_string());
    args.push(pod.to_string());
    args.push("-n".to_string());
    args.push(namespace.to_string());
    args.push("--".to_string());
    args.push("tail".to_string());
    args.push("-f".to_string());
    args.push(log_file.to_string());
    assert(sv(args@) =~= seq!["exec"@, pod@, "-n"@, namespace@, "--"@, "tail"@, "-f"@, log_file@]);
    args
}

/// The prefix of a pod's log lines: its short id in brackets.
pub fn log_prefix(pod: &str) -> (res: String)
    requires
        short_id_ok(pod@),
    ensures
        res@ == "["@ + short_id_spec(pod@) + "]"@,
{
    let mut out = chars_of("[");
    let s = short_id(pod);
    push_str(&mut out, s.as_str());
    push_str(&mut out, "]");
    string_from_chars(&out)
}

/// What a pod session does once the pods are known.
#[derive(Debug, Clone, Copy, PartialEq, Eq, Structural)]
pub enum PodChoice {
    /// No pod matched: an error.
    NoPods,
    /// Follow the log file in every pod.
    TailLogs,
    /// No pod was chosen: show the next steps.
    ShowNextSteps,
    /// The pod number is out of range: an error.
    InvalidNumber,
    /// Open a session in the pod at this position.
    Exec(usize),
}

/// Decide what a pod session does with `pod_count` matching pods.
pub fn choose_pod(pod_count: usize, has_log_file: bool, pod_num: Option<usize>) -> (res: PodChoice)
    ensures
        pod_count == 0 ==> res == PodChoice::NoPods,
        pod_count > 0 && has_log_file ==> res == PodChoice::TailLogs,
        pod_count > 0 && !has_log_file && pod_num is None ==> res == PodChoice::ShowNextSteps,
        pod_count > 0 && !has_log_file && (pod_num matches Some(n) && (n < 1 || n > pod_count))
            ==> res == PodChoice::InvalidNumber,
        pod_count > 0 && !has_log_file && (pod_num matches Some(n) && 1 <= n <= pod_count) ==> res
            == PodChoice::Exec((pod_num.unwrap() - 1) as usize),
{
    if pod_count == 0 {
        return PodChoice::NoPods;
    }
    if has_log_file {
        return PodChoice::TailLogs;
    }
    match pod_num {
        None => PodChoice::ShowNextSteps,
        Some(n) => {
            if n < 1 || n > pod_count {
                PodChoice::InvalidNumber
            } else {
                PodChoice::Exec(n - 1)
            }
        },
    }
}

} // verus!
