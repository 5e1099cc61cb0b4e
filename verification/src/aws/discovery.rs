//! Which AWS profiles exist and what each of them can reach.

use vstd::prelude::*;
use colored::Colorize;
use crate::aws::{identity_of_arn, type_label, type_name_of, IdentityInfo};
use crate::text::{
    chars_eq_str, chars_of, contains, dec, dec_chars, ends_with, ends_with_exec, join, join_chars, lines,
    lines_of, push_chars, push_str, starts_with, starts_with_exec, string_from_chars, sub_chars, sv,
    trim, trim_chars, vv,
};

verus! {

/// Capabilities discovered for a profile (all read-only operations)
#[derive(Debug)]
pub struct ProfileCapabilities {
    pub profile: String,
    pub valid: bool,
    pub identity: Option<IdentityInfo>,
    pub eks_clusters: Option<Vec<String>>,
    pub ec2_accessible: Option<bool>,
    pub s3_bucket_count: Option<usize>,
    pub pipeline_count: Option<usize>,
}

/// The profile a line of `~/.aws/config` opens: `[default]` opens
/// `default`, `[profile NAME]` opens `NAME` (the line trimmed first).
pub open spec fn profile_of_line(line: Seq<char>) -> Option<Seq<char>> {
    let t = trim(line);
    if starts_with(t, "["@) && ends_with(t, "]"@) {
        let section = t.subrange(1, t.len() - 1);
        if section == "default"@ {
            Some("default"@)
        } else if starts_with(section, "profile "@) {
            Some(section.skip("profile "@.len() as int))
        } else {
            None
        }
    } else {
        None
    }
}

/// The profiles the lines open, in order.
pub open spec fn profiles_of(ls: Seq<Seq<char>>) -> Seq<Seq<char>>
    decreases ls.len(),
{
    if ls.len() == 0 {
        seq![]
    } else {
        let rest = profiles_of(ls.drop_last());
        match profile_of_line(ls.last()) {
            Some(p) => rest.push(p),
            None => rest,
        }
    }
}

fn profile_of_line_exec(line: &Vec<char>) -> (res: Option<String>)
    ensures
        match res {
            Some(p) => profile_of_line(line@) == Some(p@),
            None => profile_of_line(line@) is None,
        },
{
    let t = trim_chars(line);
    if starts_with_exec(&t, &chars_of("[")) && ends_with_exec(&t, &chars_of("]")) {
        proof {
            reveal_strlit("[");
            reveal_strlit("]");
            assert(t@.take(1)[0] == '[');
            assert(t@.skip(t@.len() - 1)[0] == ']');
        }
        let section = sub_chars(&t, 1, t.len() - 1);
        if chars_eq_str(&section, "default") {
            Some("default".to_string())
        } else {
            let prefix = chars_of("profile ");
            if starts_with_exec(&section, &prefix) {
                let name = sub_chars(&section, prefix.len(), section.len());
                assert(name@ =~= section@.skip("profile "@.len() as int));
                Some(string_from_chars(&name))
            } else {
                None
            }
        }
    } else {
        None
    }
}

/// The profile names declared in the text of `~/.aws/config`.
pub fn parse_aws_profiles(content: &str) -> (res: Vec<String>)
    ensures
        sv(res@) == profiles_of(lines(content@)),
{
    let ls = lines_of(&chars_of(content));
    let mut res: Vec<String> = Vec::new();
    let mut i: usize = 0;
    while i < ls.len()
        invariant
            i <= ls.len(),
            vv(ls@) == lines(content@),
            sv(res@) == profiles_of(vv(ls@).take(i as int)),
        decreases ls.len() - i,
    {
        assert(vv(ls@).take(i + 1).drop_last() =~= vv(ls@).take(i as int));
        let ghost before = res@;
        match profile_of_line_exec(&ls[i]) {
            Some(p) => {
                res.push(p);
                assert(sv(res@) =~= sv(before).push(p@));
            },
            None => {},
        }
        i = i + 1;
    }
    assert(vv(ls@).take(ls.len() as int) =~= vv(ls@));
    res
}

/// The capabilities of a profile from what each service answered: a profile
/// whose identity could not be read is invalid and nothing else is checked;
/// otherwise its identity comes from the ARN and account that STS gave, and
/// EC2 counts as accessible exactly when its region listing succeeded.
pub fn capabilities_from(
    profile: &str,
    identity: Option<(String, String)>,
    eks_clusters: Option<Vec<String>>,
    ec2_reachable: bool,
    s3_bucket_count: Option<usize>,
    pipeline_count: Option<usize>,
) -> (res: ProfileCapabilities)
    ensures
        res.profile@ == profile@,
        res.valid == identity is Some,
        identity is None ==> {
            &&& res.identity is None
            &&& res.eks_clusters is None
            &&& res.ec2_accessible is None
            &&& res.s3_bucket_count is None
            &&& res.pipeline_count is None
        },
        identity matches Some((arn, account)) ==> {
            &&& res.identity matches Some(i) && i.arn@ == arn@ && i.account@ == account@
                && identity_of_arn(arn@, i.identity_type)
            &&& res.eks_clusters == eks_clusters
            &&& res.ec2_accessible == Some(ec2_reachable)
            &&& res.s3_bucket_count == s3_bucket_count
            &&& res.pipeline_count == pipeline_count
        },
{
    match identity {
        None => ProfileCapabilities {
            profile: profile.to_string(),
            valid: false,
            identity: None,
            eks_clusters: None,
            ec2_accessible: None,
            s3_bucket_count: None,
            pipeline_count: None,
        },
        Some((arn, account)) => ProfileCapabilities {
            profile: profile.to_string(),
            valid: true,
            identity: Some(IdentityInfo::from_arn(arn.as_str(), account.as_str())),
            eks_clusters,
            ec2_accessible: Some(ec2_reachable),
            s3_bucket_count,
            pipeline_count,
        },
    }
}

/// How many of the profiles are valid.
pub open spec fn valid_count(s: Seq<ProfileCapabilities>) -> nat
    decreases s.len(),
{
    if s.len() == 0 {
        0
    } else {
        valid_count(s.drop_last()) + if s.last().valid {
            1nat
        } else {
            0nat
        }
    }
}

/// The positions of the profiles a report shows: all of them with
/// `show_all`, else the valid ones.
pub open spec fn shown_positions(s: Seq<ProfileCapabilities>, show_all: bool) -> Seq<usize>
    decreases s.len(),
{
    if s.len() == 0 {
        seq![]
    } else {
        let rest = shown_positions(s.drop_last(), show_all);
        if show_all || s.last().valid {
            rest.push((s.len() - 1) as usize)
        } else {
            rest
        }
    }
}

/// The number of valid and of expired profiles, as the report's summary
/// line gives them.
pub fn discovery_summary(results: &Vec<ProfileCapabilities>) -> (res: (usize, usize))
    ensures
        res.0 == valid_count(results@),
        res.0 + res.1 == results.len(),
{
    let mut valid: usize = 0;
    let mut i: usize = 0;
    while i < results.len()
        invariant
            i <= results.len(),
            valid == valid_count(results@.take(i as int)),
            valid <= i,
        decreases results.len() - i,
    {
        assert(results@.take(i + 1).drop_last() =~= results@.take(i as int));
        if results[i].valid {
            valid = valid + 1;
        }
        i = i + 1;
    }
    assert(results@.take(results.len() as int) =~= results@);
    (valid, results.len() - valid)
}

/// The positions of the profiles that the table and the JSON report show.
pub fn shown_profiles(results: &Vec<ProfileCapabilities>, show_all: bool) -> (res: Vec<usize>)
    ensures
        res@ == shown_positions(results@, show_all),
{
    let mut res: Vec<usize> = Vec::new();
    let mut i: usize = 0;
    while i < results.len()
        invariant
            i <= results.len(),
            res@ == shown_positions(results@.take(i as int), show_all),
        decreases results.len() - i,
    {
        assert(results@.take(i + 1).drop_last() =~= results@.take(i as int));
        if show_all || results[i].valid {
            res.push(i);
        }
        i = i + 1;
    }
    assert(results@.take(results.len() as int) =~= results@);
    res
}

/// A style the discovery report paints a piece of text with.
#[derive(Debug, Clone, Copy, PartialEq, Eq, Structural)]
pub enum Paint {
    Dimmed,
    CyanBold,
    Cyan,
    White,
    Green,
    Yellow,
    Red,
}

/// The SGR parameters `colored` writes for a style.
pub open spec fn paint_code(p: Paint) -> Seq<char> {
    match p {
        Paint::Dimmed => "2"@,
        Paint::CyanBold => "1;36"@,
        Paint::Cyan => "36"@,
        Paint::White => "37"@,
        Paint::Green => "32"@,
        Paint::Yellow => "33"@,
        Paint::Red => "31"@,
    }
}

/// The reset sequence `ESC [ 0 m`.
pub open spec fn reset_seq() -> Seq<char> {
    seq!['\x1b', '[', '0', 'm']
}

/// Text painted by `colored`: the style's sequence, the text, a reset.
pub open spec fn painted(text: Seq<char>, p: Paint) -> Seq<char> {
    seq!['\x1b', '['] + paint_code(p) + seq!['m'] + text + reset_seq()
}

/// `colored`'s `dimmed`, `cyan().bold()`, `cyan`, `white`, `green`,
/// `yellow` or `red`, rendered with `to_string`. Whether the escapes are
/// written depends on the environment (`NO_COLOR`, `CLICOLOR`,
/// `CLICOLOR_FORCE`, whether standard output is a terminal) and on any
/// override set in the process, so which form comes back is not stated;
/// for a text that itself holds a reset sequence, where `colored` re-inserts
/// the style after it, nothing is stated.
#[verifier::external_body]
fn paint(text: &str, p: Paint) -> (res: String)
    ensures
        !contains(text@, reset_seq()) ==> (res@ == text@ || res@ == painted(text@, p)),
{
    match p {
        Paint::Dimmed => text.dimmed().to_string(),
        Paint::CyanBold => text.cyan().bold().to_string(),
        Paint::Cyan => text.cyan().to_string(),
        Paint::White => text.white().to_string(),
        Paint::Green => text.green().to_string(),
        Paint::Yellow => text.yellow().to_string(),
        Paint::Red => text.red().to_string(),
    }
}

/// A piece of a report line: its text and the style it is painted with,
/// if any.
pub type Segment = (String, Option<Paint>);

/// The views of a line's pieces.
pub open spec fn segs_view(v: Seq<Segment>) -> Seq<(Seq<char>, Option<Paint>)> {
    v.map_values(|g: Segment| (g.0@, g.1))
}

/// The views of lines of pieces.
pub open spec fn lines_view(v: Seq<Vec<Segment>>) -> Seq<Seq<(Seq<char>, Option<Paint>)>> {
    v.map_values(|l: Vec<Segment>| segs_view(l@))
}

/// A piece as printed, painted or not.
pub open spec fn segment_text(g: (Seq<char>, Option<Paint>), colored: bool) -> Seq<char> {
    match g.1 {
        Some(p) => if colored {
            painted(g.0, p)
        } else {
            g.0
        },
        None => g.0,
    }
}

/// A line as printed, each piece painted as `colored` says.
pub open spec fn line_text(segs: Seq<(Seq<char>, Option<Paint>)>, colored: Seq<bool>) -> Seq<char>
    decreases segs.len(),
{
    if segs.len() == 0 {
        seq![]
    } else {
        line_text(segs.drop_last(), colored.drop_last()) + segment_text(segs.last(), colored.last())
    }
}

/// No piece holds a reset sequence.
pub open spec fn no_reset(segs: Seq<(Seq<char>, Option<Paint>)>) -> bool {
    forall|i: int| 0 <= i < segs.len() ==> !contains(#[trigger] segs[i].0, reset_seq())
}

/// `out` is the line printed with each of its painted pieces coloured or
/// not (stated for lines whose pieces hold no reset sequence).
pub open spec fn line_rendered(out: Seq<char>, segs: Seq<(Seq<char>, Option<Paint>)>) -> bool {
    no_reset(segs) ==> exists|c: Seq<bool>| c.len() == segs.len() && out == line_text(segs, c)
}

/// A plain piece.
pub open spec fn plain(t: Seq<char>) -> (Seq<char>, Option<Paint>) {
    (t, None)
}

/// A painted piece.
pub open spec fn styled(t: Seq<char>, p: Paint) -> (Seq<char>, Option<Paint>) {
    (t, Some(p))
}

/// A labelled line: indent, the dimmed label, a space, then the rest.
pub open spec fn labelled_line(indent: Seq<char>, label: Seq<char>, rest: Seq<(Seq<char>, Option<Paint>)>) -> Seq<
    (Seq<char>, Option<Paint>),
> {
    seq![plain(indent), styled(label, Paint::Dimmed), plain(" "@)] + rest
}

/// The EKS line of a profile's report.
pub open spec fn eks_segs(clusters: Option<Seq<Seq<char>>>) -> Seq<(Seq<char>, Option<Paint>)> {
    labelled_line(
        "    "@,
        "EKS:"@,
        match clusters {
            None => seq![styled("no access"@, Paint::Red)],
            Some(c) => if c.len() == 0 {
                seq![styled("no clusters"@, Paint::Yellow)]
            } else {
                seq![
                    styled(dec(c.len()), Paint::Green),
                    plain(" clusters ("@),
                    styled(join(c, ", "@), Paint::White),
                    plain(")"@),
                ]
            },
        },
    )
}

/// The EC2 line of a profile's report.
pub open spec fn ec2_segs(accessible: Option<bool>) -> Seq<(Seq<char>, Option<Paint>)> {
    labelled_line(
        "    "@,
        "EC2:"@,
        match accessible {
            Some(true) => seq![styled("accessible"@, Paint::Green)],
            Some(false) => seq![styled("no access"@, Paint::Red)],
            None => seq![styled("unknown"@, Paint::Yellow)],
        },
    )
}

/// A count line of a profile's report: the count in green and its unit, or
/// no access in red.
pub open spec fn count_segs(label: Seq<char>, count: Option<usize>, unit: Seq<char>) -> Seq<
    (Seq<char>, Option<Paint>),
> {
    labelled_line(
        "    "@,
        label,
        match count {
            Some(n) => seq![styled(dec(n as nat), Paint::Green), plain(" "@ + unit)],
            None => seq![styled("no access"@, Paint::Red)],
        },
    )
}

/// The lines of one profile in the discovery report, ending with an empty
/// line: identity and what each service allows for a valid profile; the
/// expiry and the login command for an invalid one.
pub open spec fn profile_segs(c: ProfileCapabilities) -> Seq<Seq<(Seq<char>, Option<Paint>)>> {
    if c.valid {
        let i = c.identity.unwrap();
        seq![
            labelled_line("  "@, "Profile:"@, seq![styled(c.profile@, Paint::CyanBold)]),
            labelled_line("    "@, "Account:"@, seq![styled(i.account@, Paint::White)]),
            labelled_line(
                "    "@,
                "Identity:"@,
                seq![
                    styled(type_name_of(i.identity_type), Paint::White),
                    plain(" ("@),
                    styled(type_label(i.identity_type), Paint::Cyan),
                    plain(")"@),
                ],
            ),
            eks_segs(match c.eks_clusters {
                Some(v) => Some(sv(v@)),
                None => None,
            }),
            ec2_segs(c.ec2_accessible),
            count_segs("S3:"@, c.s3_bucket_count, "buckets"@),
            count_segs("Pipelines:"@, c.pipeline_count, "pipelines"@),
            seq![],
        ]
    } else {
        seq![
            labelled_line(
                "  "@,
                "Profile:"@,
                seq![styled(c.profile@, Paint::CyanBold), plain(" "@), styled("(EXPIRED)"@, Paint::Red)],
            ),
            seq![plain("    "@), styled("Run:"@, Paint::Dimmed), plain(" aws sso login --profile "@), styled(c.profile@, Paint::Yellow)],
            seq![],
        ]
    }
}

/// A valid profile carries its identity.
pub open spec fn report_ok(c: ProfileCapabilities) -> bool {
    c.valid ==> c.identity is Some
}

/// The report's lines for the profiles shown: all with `show_all`, else the
/// valid ones, in order.
pub open spec fn discovery_segs(s: Seq<ProfileCapabilities>, show_all: bool) -> Seq<
    Seq<(Seq<char>, Option<Paint>)>,
>
    decreases s.len(),
{
    if s.len() == 0 {
        seq![]
    } else {
        let rest = discovery_segs(s.drop_last(), show_all);
        if show_all || s.last().valid {
            rest + profile_segs(s.last())
        } else {
            rest
        }
    }
}

fn seg(text: &str, paint: Option<Paint>) -> (res: Segment)
    ensures
        res.0@ == text@,
        res.1 == paint,
{
    (text.to_string(), paint)
}

fn labelled_exec(indent: &str, label: &str, rest: Vec<Segment>) -> (res: Vec<Segment>)
    ensures
        segs_view(res@) == labelled_line(indent@, label@, segs_view(rest@)),
{
    let mut out: Vec<Segment> = Vec::new();
    out.push(seg(indent, None));
    out.push(seg(label, Some(Paint::Dimmed)));
    out.push(seg(" ", None));
    let ghost head = out@;
    let mut rest = rest;
    let ghost r = rest@;
    out.append(&mut rest);
    assert(segs_view(out@) =~= labelled_line(indent@, label@, segs_view(r)));
    out
}

fn one(text: String, paint: Option<Paint>) -> (res: Vec<Segment>)
    ensures
        segs_view(res@) == seq![(text@, paint)],
{
    let mut v: Vec<Segment> = Vec::new();
    v.push((text, paint));
    assert(segs_view(v@) =~= seq![(text@, paint)]);
    v
}

fn count_exec(label: &str, count: Option<usize>, unit: &str) -> (res: Vec<Segment>)
    ensures
        segs_view(res@) == count_segs(label@, count, unit@),
{
    let rest = match count {
        Some(n) => {
            let mut v = one(string_from_chars(&dec_chars(n as u64)), Some(Paint::Green));
            let mut u = chars_of(" ");
            push_str(&mut u, unit);
            let ghost before = v@;
            let us = string_from_chars(&u);
            assert(us@ == " "@ + unit@);
            v.push((us, None));
            assert(segs_view(v@) =~= segs_view(before).push((" "@ + unit@, None)));
            assert(segs_view(v@) =~= seq![styled(dec(n as nat), Paint::Green), plain(" "@ + unit@)]);
            v
        },
        None => one("no access".to_string(), Some(Paint::Red)),
    };
    labelled_exec("    ", label, rest)
}

fn eks_exec(clusters: &Option<Vec<String>>) -> (res: Vec<Segment>)
    ensures
        segs_view(res@) == eks_segs(match clusters {
            Some(v) => Some(sv(v@)),
            None => None,
        }),
{
    let rest = match clusters {
        None => one("no access".to_string(), Some(Paint::Red)),
        Some(c) => {
            if c.len() == 0 {
                one("no clusters".to_string(), Some(Paint::Yellow))
            } else {
                let mut parts: Vec<Vec<char>> = Vec::new();
                let mut i: usize = 0;
                while i < c.len()
                    invariant
                        i <= c.len(),
                        vv(parts@) == sv(c@).take(i as int),
                    decreases c.len() - i,
                {
                    let ghost before = parts@;
                    parts.push(chars_of(c[i].as_str()));
                    assert(vv(parts@) =~= vv(before).push(c@[i as int]@));
                    assert(sv(c@).take(i + 1) =~= sv(c@).take(i as int).push(c@[i as int]@));
                    i = i + 1;
                }
                assert(sv(c@).take(c.len() as int) =~= sv(c@));
                let j = join_chars(&parts, ", ");
                let mut v: Vec<Segment> = Vec::new();
                v.push((string_from_chars(&dec_chars(c.len() as u64)), Some(Paint::Green)));
                v.push(seg(" clusters (", None));
                v.push((string_from_chars(&j), Some(Paint::White)));
                v.push(seg(")", None));
                assert(segs_view(v@) =~= seq![
                    styled(dec(c@.len()), Paint::Green),
                    plain(" clusters ("@),
                    styled(join(sv(c@), ", "@), Paint::White),
                    plain(")"@),
                ]);
                v
            }
        },
    };
    labelled_exec("    ", "EKS:", rest)
}

/// The lines of one profile in the discovery report, as painted pieces.
pub fn profile_report_segments(caps: &ProfileCapabilities) -> (res: Vec<Vec<Segment>>)
    requires
        report_ok(*caps),
    ensures
        lines_view(res@) == profile_segs(*caps),
{
    let mut res: Vec<Vec<Segment>> = Vec::new();
    if caps.valid {
        let identity = match &caps.identity {
            Some(i) => i,
            None => {
                return res;
            },
        };
        res.push(labelled_exec("  ", "Profile:", one(caps.profile.clone(), Some(Paint::CyanBold))));
        res.push(labelled_exec("    ", "Account:", one(identity.account.clone(), Some(Paint::White))));
        let mut idv: Vec<Segment> = Vec::new();
        idv.push(seg(identity.name(), Some(Paint::White)));
        idv.push(seg(" (", None));
        idv.push(seg(identity.kind_name(), Some(Paint::Cyan)));
        idv.push(seg(")", None));
        let ghost idg = segs_view(idv@);
        res.push(labelled_exec("    ", "Identity:", idv));
        res.push(eks_exec(&caps.eks_clusters));
        let ec2 = match caps.ec2_accessible {
            Some(true) => one("accessible".to_string(), Some(Paint::Green)),
            Some(false) => one("no access".to_string(), Some(Paint::Red)),
            None => one("unknown".to_string(), Some(Paint::Yellow)),
        };
        res.push(labelled_exec("    ", "EC2:", ec2));
        res.push(count_exec("S3:", caps.s3_bucket_count, "buckets"));
        res.push(count_exec("Pipelines:", caps.pipeline_count, "pipelines"));
        res.push(Vec::new());
        assert(segs_view(res@[7]@) =~= Seq::<(Seq<char>, Option<Paint>)>::empty());
        assert(lines_view(res@)[2] == labelled_line("    "@, "Identity:"@, idg));
        assert(idg =~= seq![
            styled(type_name_of(identity.identity_type), Paint::White),
            plain(" ("@),
            styled(type_label(identity.identity_type), Paint::Cyan),
            plain(")"@),
        ]);
    } else {
        let mut first: Vec<Segment> = Vec::new();
        first.push((caps.profile.clone(), Some(Paint::CyanBold)));
        first.push(seg(" ", None));
        first.push(seg("(EXPIRED)", Some(Paint::Red)));
        let ghost fg = segs_view(first@);
        res.push(labelled_exec("  ", "Profile:", first));
        let mut run: Vec<Segment> = Vec::new();
        run.push(seg("    ", None));
        run.push(seg("Run:", Some(Paint::Dimmed)));
        run.push(seg(" aws sso login --profile ", None));
        run.push((caps.profile.clone(), Some(Paint::Yellow)));
        let ghost rg = segs_view(run@);
        res.push(run);
        res.push(Vec::new());
        assert(segs_view(res@[2]@) =~= Seq::<(Seq<char>, Option<Paint>)>::empty());
        assert(fg =~= seq![styled(caps.profile@, Paint::CyanBold), plain(" "@), styled("(EXPIRED)"@, Paint::Red)]);
        assert(rg =~= seq![plain("    "@), styled("Run:"@, Paint::Dimmed), plain(" aws sso login --profile "@), styled(caps.profile@, Paint::Yellow)]);
    }
    assert(lines_view(res@) =~= profile_segs(*caps));
    res
}

/// A line printed from its pieces, each painted piece through `colored`.
pub fn render_line(segs: &Vec<Segment>) -> (res: String)
    ensures
        line_rendered(res@, segs_view(segs@)),
{
    let ghost sg = segs_view(segs@);
    let mut out: Vec<char> = Vec::new();
    let ghost mut c: Seq<bool> = seq![];
    let mut i: usize = 0;
    while i < segs.len()
        invariant
            i <= segs.len(),
            sg == segs_view(segs@),
            no_reset(sg) ==> (c.len() == i && out@ == line_text(sg.take(i as int), c)),
        decreases segs.len() - i,
    {
        let ghost g = sg[i as int];
        assert(sg.take(i + 1).drop_last() =~= sg.take(i as int));
        assert(sg.take(i + 1).last() == g);
        let piece = match segs[i].1 {
            Some(p) => {
                let r = paint(segs[i].0.as_str(), p);
                proof {
                    let bit = r@ == painted(g.0, p);
                    assert(c.push(bit).drop_last() =~= c);
                    if no_reset(sg) {
                        assert(!contains(sg[i as int].0, reset_seq()));
                        assert(r@ == segment_text(g, bit));
                    }
                    c = c.push(bit);
                }
                r
            },
            None => {
                proof {
                    assert(c.push(false).drop_last() =~= c);
                    c = c.push(false);
                }
                segs[i].0.clone()
            },
        };
        push_str(&mut out, piece.as_str());
        i = i + 1;
    }
    assert(sg.take(segs.len() as int) =~= sg);
    string_from_chars(&out)
}

/// The discovery report's lines for the profiles shown (all of them with
/// `show_all`, else the valid ones), each painted as `colored` paints it.
pub fn discovery_lines(results: &Vec<ProfileCapabilities>, show_all: bool) -> (res: Vec<String>)
    requires
        forall|i: int| 0 <= i < results@.len() ==> report_ok(#[trigger] results@[i]),
    ensures
        res@.len() == discovery_segs(results@, show_all).len(),
        forall|i: int|
            0 <= i < res@.len() ==> line_rendered(#[trigger] res@[i]@, discovery_segs(results@, show_all)[i]),
{
    let mut res: Vec<String> = Vec::new();
    let mut i: usize = 0;
    while i < results.len()
        invariant
            i <= results.len(),
            forall|k: int| 0 <= k < results@.len() ==> report_ok(#[trigger] results@[k]),
            res@.len() == discovery_segs(results@.take(i as int), show_all).len(),
            forall|k: int|
                0 <= k < res@.len() ==> line_rendered(
                    #[trigger] res@[k]@,
                    discovery_segs(results@.take(i as int), show_all)[k],
                ),
        decreases results.len() - i,
    {
        assert(results@.take(i + 1).drop_last() =~= results@.take(i as int));
        assert(results@.take(i + 1).last() == results@[i as int]);
        let ghost prev = discovery_segs(results@.take(i as int), show_all);
        if show_all || results[i].valid {
            let lines = profile_report_segments(&results[i]);
            let ghost add = profile_segs(results@[i as int]);
            let mut j: usize = 0;
            let ghost base = res@.len();
            while j < lines.len()
                invariant
                    j <= lines.len(),
                    lines_view(lines@) == add,
                    base == prev.len(),
                    res@.len() == base + j,
                    forall|k: int| 0 <= k < res@.len() ==> line_rendered(#[trigger] res@[k]@, (prev + add)[k]),
                decreases lines.len() - j,
            {
                let r = render_line(&lines[j]);
                assert(lines_view(lines@)[j as int] == segs_view(lines@[j as int]@));
                assert((prev + add)[base + j] == add[j as int]);
                res.push(r);
                j = j + 1;
            }
        }
        i = i + 1;
    }
    assert(results@.take(results.len() as int) =~= results@);
    res
}

} // verus!
