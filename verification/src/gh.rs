//! GitHub pull requests: their CI status, how the PR table is laid out,
//! and the test failures read out of CI logs.

use vstd::prelude::*;
use crate::matcher::{
    groups_view, regex_captures_all, regex_captures_all_spec, regex_match_starts,
    regex_match_starts_spec, regex_replace, regex_replace_spec,
};
use crate::text::{
    opt_text, chars_eq, chars_eq_str, chars_for_bytes, chars_for_bytes_exec, chars_of, find, find_exec, join, lines, lines_of, pad_right, push_chars, push_padded_right, push_repeat, push_str, repeat, starts_with, starts_with_exec, string_from_chars, sub_chars, sub_chars_take, trim, trim_chars, vv,
};

verus! {

/// CI check status
#[derive(Debug, Clone, Copy, PartialEq, Eq, Structural)]
pub enum CiStatus {
    Success,
    Pending,
    Failed,
    Unknown,
}

impl Default for CiStatus {
    fn default() -> (res: Self)
        ensures
            res == CiStatus::Unknown,
    {
        CiStatus::Unknown
    }
}

/// Pull request data for display
#[derive(Debug, Clone)]
pub struct PullRequest {
    pub number: u64,
    pub title: String,
    pub html_url: String,
    pub state: String,
    pub repo_full_name: String,
    pub created_at: String,
    pub updated_at: String,
    pub ci_status: Option<CiStatus>,
}

/// A test failure extracted from CI logs
#[derive(Debug, Clone)]
pub struct TestFailure {
    /// The spec file path (e.g., "spec/models/user_spec.rb")
    pub spec_file: String,
    /// The failure message/output
    pub failure_text: String,
}

/// Green, for passing CI.
pub const GREEN: &'static str = "\x1b[32m";
/// Yellow, for pending CI.
pub const YELLOW: &'static str = "\x1b[33m";
/// Red, for failing CI.
pub const RED: &'static str = "\x1b[31m";
/// Gray, for unknown CI and for links.
pub const GRAY: &'static str = "\x1b[90m";
/// Back to the default colour.
pub const RESET: &'static str = "\x1b[0m";

/// The CI status a commit status state gives.
pub open spec fn status_of_state(state: Seq<char>) -> CiStatus {
    if state == "success"@ {
        CiStatus::Success
    } else if state == "pending"@ {
        CiStatus::Pending
    } else if state == "failure"@ || state == "error"@ {
        CiStatus::Failed
    } else {
        CiStatus::Unknown
    }
}

/// A check run: its status and conclusion, when reported.
#[derive(Debug)]
pub struct CheckRun {
    pub status: Option<String>,
    pub conclusion: Option<String>,
}

/// A run that concluded in failure.
pub open spec fn run_failed(r: CheckRun) -> bool {
    opt_text(r.conclusion) == Some("failure"@)
}

/// A run not completed, or without a conclusion.
pub open spec fn run_pending(r: CheckRun) -> bool {
    opt_text(r.status) != Some("completed"@) || r.conclusion is None
}

/// A run that concluded in success.
pub open spec fn run_succeeded(r: CheckRun) -> bool {
    opt_text(r.conclusion) == Some("success"@)
}

/// The CI status of a PR from its commit status state and, when they could
/// be read, its check runs: no runs while the state is pending is pending;
/// any failed run is failure; else any unfinished run is pending; else all
/// runs successful is success; otherwise the commit status decides.
pub open spec fn ci_status_spec(state: Seq<char>, runs: Option<Seq<CheckRun>>) -> CiStatus {
    match runs {
        None => status_of_state(state),
        Some(rs) => if rs.len() == 0 && state == "pending"@ {
            CiStatus::Pending
        } else if exists|i: int| 0 <= i < rs.len() && run_failed(#[trigger] rs[i]) {
            CiStatus::Failed
        } else if exists|i: int| 0 <= i < rs.len() && run_pending(#[trigger] rs[i]) {
            CiStatus::Pending
        } else if rs.len() > 0 && forall|i: int| 0 <= i < rs.len() ==> run_succeeded(#[trigger] rs[i]) {
            CiStatus::Success
        } else {
            status_of_state(state)
        },
    }
}

fn status_of_state_exec(state: &str) -> (res: CiStatus)
    ensures
        res == status_of_state(state@),
{
    let s = chars_of(state);
    if chars_eq_str(&s, "success") {
        CiStatus::Success
    } else if chars_eq_str(&s, "pending") {
        CiStatus::Pending
    } else if chars_eq_str(&s, "failure") || chars_eq_str(&s, "error") {
        CiStatus::Failed
    } else {
        CiStatus::Unknown
    }
}

fn opt_is(o: &Option<String>, s: &str) -> (res: bool)
    ensures
        res == (opt_text(*o) == Some(s@)),
{
    match o {
        Some(v) => chars_eq_str(&chars_of(v.as_str()), s),
        None => false,
    }
}

/// Decide the CI status of a PR.
pub fn ci_status_from(state: &str, check_runs: &Option<Vec<CheckRun>>) -> (res: CiStatus)
    ensures
        res == ci_status_spec(
            state@,
            match check_runs {
                Some(v) => Some(v@),
                None => None,
            },
        ),
{
    let runs = match check_runs {
        None => {
            return status_of_state_exec(state);
        },
        Some(r) => r,
    };
    if runs.len() == 0 && chars_eq_str(&chars_of(state), "pending") {
        return CiStatus::Pending;
    }
    let mut any_failed = false;
    let mut any_pending = false;
    let mut all_success = true;
    let mut i: usize = 0;
    while i < runs.len()
        invariant
            i <= runs.len(),
            any_failed == exists|j: int| 0 <= j < i && run_failed(#[trigger] runs@[j]),
            any_pending == exists|j: int| 0 <= j < i && run_pending(#[trigger] runs@[j]),
            all_success == forall|j: int| 0 <= j < i ==> run_succeeded(#[trigger] runs@[j]),
        decreases runs.len() - i,
    {
        let r = &runs[i];
        if opt_is(&r.conclusion, "failure") {
            any_failed = true;
        }
        if !opt_is(&r.status, "completed") || r.conclusion.is_none() {
            any_pending = true;
        }
        if !opt_is(&r.conclusion, "success") {
            all_success = false;
        }
        i = i + 1;
    }
    if any_failed {
        CiStatus::Failed
    } else if any_pending {
        CiStatus::Pending
    } else if all_success && runs.len() > 0 {
        CiStatus::Success
    } else {
        status_of_state_exec(state)
    }
}

/// Owner and repository of a `owner/repo` name: exactly one `/`.
pub open spec fn split_repo_spec(full: Seq<char>) -> Option<(Seq<char>, Seq<char>)> {
    match find(full, "/"@) {
        Some(k) => if find(full.skip(k + 1), "/"@) is None {
            Some((full.take(k), full.skip(k + 1)))
        } else {
            None
        },
        None => None,
    }
}

/// Split `owner/repo`; none unless the name has exactly two parts.
pub fn split_repo(full_name: &str) -> (res: Option<(String, String)>)
    ensures
        match res {
            Some((o, r)) => split_repo_spec(full_name@) == Some((o@, r@)),
            None => split_repo_spec(full_name@) is None,
        },
{
    let f = chars_of(full_name);
    let fl = f.len();
    let slash = chars_of("/");
    match find_exec(&f, &slash) {
        Some(k) => {
            proof {
                crate::text::lemma_find_from_bounds(f@, slash@, 0);
                reveal_strlit("/");
                assert(k + 1 <= fl);
            }
            let rest = sub_chars(&f, k + 1, fl);
            assert(rest@ =~= f@.skip(k + 1));
            match find_exec(&rest, &slash) {
                Some(_) => None,
                None => {
                    let owner = sub_chars_take(&f, k);
                    Some((string_from_chars(&owner), string_from_chars(&rest)))
                },
            }
        },
        None => None,
    }
}

/// The two path segments after the first (`repos`) of an API URL, or as
/// many of them as there are.
pub open spec fn repo_parts(segs: Seq<Seq<char>>) -> Seq<Seq<char>> {
    if segs.len() <= 1 {
        seq![]
    } else if segs.len() == 2 {
        seq![segs[1]]
    } else {
        seq![segs[1], segs[2]]
    }
}

/// The repository a search result belongs to: the two path segments after
/// `repos` in its API URL, joined by `/`.
pub fn repo_full_name(path_segments: &Vec<String>) -> (res: String)
    ensures
        res@ == join(repo_parts(path_segments@.map_values(|s: String| s@)), "/"@),
{
    let mut out: Vec<char> = Vec::new();
    let n = path_segments.len();
    let ghost segs = path_segments@.map_values(|s: String| s@);
    if n > 1 {
        push_str(&mut out, path_segments[1].as_str());
        assert(segs[1] == path_segments@[1]@);
        if n > 2 {
            push_str(&mut out, "/");
            push_str(&mut out, path_segments[2].as_str());
            assert(segs[2] == path_segments@[2]@);
            assert(repo_parts(segs).drop_last() =~= seq![segs[1]]);
            assert(join(seq![segs[1]], "/"@) == segs[1]);
        } else {
            assert(join(seq![segs[1]], "/"@) == segs[1]);
        }
    } else {
        assert(repo_parts(segs) =~= Seq::<Seq<char>>::empty());
        assert(out@ =~= Seq::<char>::empty());
    }
    string_from_chars(&out)
}

/// A title cut to `max_len` characters: kept when it fits, else its first
/// `max_len - 1` characters and an ellipsis.
pub open spec fn truncate_spec(s: Seq<char>, max_len: nat) -> Seq<char> {
    if s.len() <= max_len {
        s
    } else {
        s.take(if max_len >= 1 {
            max_len - 1
        } else {
            0
        }) + "\u{2026}"@
    }
}

/// A truncated title never takes more than `max_len` characters (for a
/// width of at least one).
pub proof fn lemma_truncate_fits(s: Seq<char>, max_len: nat)
    requires
        max_len >= 1,
    ensures
        truncate_spec(s, max_len).len() <= max_len,
{
    reveal_strlit("\u{2026}");
}

/// Cut a title to at most `max_len` characters.
pub fn truncate(s: &str, max_len: usize) -> (res: String)
    ensures
        res@ == truncate_spec(s@, max_len as nat),
{
    let c = chars_of(s);
    if c.len() <= max_len {
        return s.to_string();
    }
    let keep = max_len.saturating_sub(1);
    let mut out = sub_chars_take(&c, keep);
    push_str(&mut out, "\u{2026}");
    string_from_chars(&out)
}

/// The coloured icon of a CI status (unknown when none was read).
pub open spec fn status_icon_spec(s: Option<CiStatus>) -> Seq<char> {
    match s {
        Some(CiStatus::Success) => GREEN@ + "\u{2713}"@ + RESET@,
        Some(CiStatus::Pending) => YELLOW@ + "\u{25d0}"@ + RESET@,
        Some(CiStatus::Failed) => RED@ + "\u{2717}"@ + RESET@,
        _ => GRAY@ + "\u{25cb}"@ + RESET@,
    }
}

/// The coloured icon of a CI status.
pub fn status_icon(s: Option<CiStatus>) -> (res: String)
    ensures
        res@ == status_icon_spec(s),
{
    let mut out: Vec<char> = Vec::new();
    match s {
        Some(CiStatus::Success) => {
            push_str(&mut out, GREEN);
            push_str(&mut out, "\u{2713}");
        },
        Some(CiStatus::Pending) => {
            push_str(&mut out, YELLOW);
            push_str(&mut out, "\u{25d0}");
        },
        Some(CiStatus::Failed) => {
            push_str(&mut out, RED);
            push_str(&mut out, "\u{2717}");
        },
        _ => {
            push_str(&mut out, GRAY);
            push_str(&mut out, "\u{25cb}");
        },
    }
    push_str(&mut out, RESET);
    string_from_chars(&out)
}

/// The widest link in bytes, or 40 when there are no PRs.
pub open spec fn max_link_len(prs: Seq<PullRequest>) -> nat
    decreases prs.len(),
{
    if prs.len() == 0 {
        40
    } else if prs.len() == 1 {
        crate::text::byte_len(prs[0].html_url@)
    } else {
        let rest = max_link_len(prs.drop_last());
        let here = crate::text::byte_len(prs.last().html_url@);
        if here > rest {
            here
        } else {
            rest
        }
    }
}

/// The width of the title column: what the terminal leaves after the
/// borders, the status column and the links, at least 20.
pub open spec fn title_width_spec(term_width: nat, link_len: nat) -> nat {
    let used = 10 + 1 + link_len;
    let available = if term_width > used {
        (term_width - used) as nat
    } else {
        0
    };
    if available > 20 {
        available
    } else {
        20
    }
}

/// One row of the PR table.
pub open spec fn pr_row(pr: PullRequest, title_width: nat) -> Seq<char> {
    "\u{2502} "@ + status_icon_spec(pr.ci_status) + " \u{2502} "@ + pad_right(
        truncate_spec(pr.title@, title_width),
        title_width,
    ) + " \u{2502} "@ + GRAY@ + pr.html_url@ + RESET@ + " \u{2502}"@
}

/// A border line of the PR table.
pub open spec fn border(left: Seq<char>, mid: Seq<char>, right: Seq<char>, tw: nat, lw: nat) -> Seq<char> {
    left + repeat("\u{2500}"@, tw + 2) + mid + repeat("\u{2500}"@, lw + 2) + right
}

/// The lines of the PR table: top border, one row per PR, bottom border.
pub open spec fn prs_table_spec(prs: Seq<PullRequest>, term_width: nat) -> Seq<Seq<char>> {
    let lw = max_link_len(prs);
    let tw = title_width_spec(term_width, lw);
    seq![border("\u{250c}\u{2500}\u{2500}\u{2500}\u{252c}"@, "\u{252c}"@, "\u{2510}"@, tw, lw)]
        + prs.map_values(|p: PullRequest| pr_row(p, tw))
        + seq![border("\u{2514}\u{2500}\u{2500}\u{2500}\u{2534}"@, "\u{2534}"@, "\u{2518}"@, tw, lw)]
}

/// `n + 2` copies are `n` copies and two more.
proof fn lemma_repeat_two_more(s: Seq<char>, n: nat)
    ensures
        repeat(s, n + 2) == repeat(s, n) + s + s,
{
    assert(repeat(s, n + 2) == repeat(s, n + 1) + s);
    assert(repeat(s, n + 1) == repeat(s, n) + s);
}

fn border_line(left: &str, mid: &str, right: &str, tw: usize, lw: usize) -> (res: String)
    ensures
        res@ == border(left@, mid@, right@, tw as nat, lw as nat),
{
    let mut out = chars_of(left);
    push_repeat(&mut out, "\u{2500}", tw);
    push_str(&mut out, "\u{2500}\u{2500}");
    push_str(&mut out, mid);
    push_repeat(&mut out, "\u{2500}", lw);
    push_str(&mut out, "\u{2500}\u{2500}");
    push_str(&mut out, right);
    proof {
        reveal_strlit("\u{2500}\u{2500}");
        reveal_strlit("\u{2500}");
        lemma_repeat_two_more("\u{2500}"@, tw as nat);
        lemma_repeat_two_more("\u{2500}"@, lw as nat);
        assert("\u{2500}\u{2500}"@ =~= "\u{2500}"@ + "\u{2500}"@);
    }
    string_from_chars(&out)
}

/// The lines of the PR table for a terminal `term_width` columns wide.
pub fn prs_table(prs: &Vec<PullRequest>, term_width: usize) -> (res: Vec<String>)
    ensures
        res@.map_values(|s: String| s@) == prs_table_spec(prs@, term_width as nat),
{
    let mut lw: usize = 40;
    let mut i: usize = 0;
    while i < prs.len()
        invariant
            i <= prs.len(),
            i > 0 ==> lw == max_link_len(prs@.take(i as int)),
            i == 0 ==> lw == 40,
        decreases prs.len() - i,
    {
        let here = prs[i].html_url.as_str().len();
        assert(prs@.take(i + 1).drop_last() =~= prs@.take(i as int));
        if i == 0 || here > lw {
            lw = here;
        }
        i = i + 1;
    }
    assert(prs@.take(prs.len() as int) =~= prs@);
    let available = term_width.saturating_sub(lw).saturating_sub(11);
    let tw = if available > 20 {
        available
    } else {
        20
    };
    let mut lines: Vec<String> = Vec::new();
    lines.push(border_line("\u{250c}\u{2500}\u{2500}\u{2500}\u{252c}", "\u{252c}", "\u{2510}", tw, lw));
    let mut j: usize = 0;
    while j < prs.len()
        invariant
            j <= prs.len(),
            lines@.map_values(|s: String| s@) == seq![border(
                "\u{250c}\u{2500}\u{2500}\u{2500}\u{252c}"@,
                "\u{252c}"@,
                "\u{2510}"@,
                tw as nat,
                lw as nat,
            )] + prs@.take(j as int).map_values(|p: PullRequest| pr_row(p, tw as nat)),
        decreases prs.len() - j,
    {
        let pr = &prs[j];
        let mut row = chars_of("\u{2502} ");
        let icon = status_icon(pr.ci_status);
        push_str(&mut row, icon.as_str());
        push_str(&mut row, " \u{2502} ");
        let title = truncate(pr.title.as_str(), tw);
        push_padded_right(&mut row, &chars_of(title.as_str()), tw);
        push_str(&mut row, " \u{2502} ");
        push_str(&mut row, GRAY);
        push_str(&mut row, pr.html_url.as_str());
        push_str(&mut row, RESET);
        push_str(&mut row, " \u{2502}");
        let ghost before = lines@;
        lines.push(string_from_chars(&row));
        assert(prs@.take(j + 1).map_values(|p: PullRequest| pr_row(p, tw as nat)) =~= prs@.take(
            j as int,
        ).map_values(|p: PullRequest| pr_row(p, tw as nat)).push(pr_row(prs@[j as int], tw as nat)));
        assert(lines@.map_values(|s: String| s@) =~= before.map_values(|s: String| s@).push(
            pr_row(prs@[j as int], tw as nat),
        ));
        j = j + 1;
    }
    lines.push(border_line("\u{2514}\u{2500}\u{2500}\u{2500}\u{2534}", "\u{2534}", "\u{2518}", tw, lw));
    assert(prs@.take(prs.len() as int) =~= prs@);
    proof {
        assert(term_width as nat > 11 + lw ==> available == term_width - 11 - lw);
    }
    assert(lines@.map_values(|s: String| s@) =~= prs_table_spec(prs@, term_width as nat));
    lines
}

/// Where a numbered failure block of RSpec output begins: `N) ` and a word.
pub const FAILURE_BLOCK_RE: &'static str = r"\d+\)\s+\S";

/// A rerun line of RSpec output, with the spec file and line captured.
pub const FAILED_EXAMPLE_RE: &'static str = r"rspec\s+(\./spec/[^\s]+:\d+)";

/// The timestamp GitHub puts before each CI log line.
pub const CI_TIMESTAMP_RE: &'static str = r"^\d{4}-\d{2}-\d{2}T[\d:.]+Z\s*";

/// A CI log line without its timestamp, trimmed.
pub open spec fn clean_ci_line_spec(line: Seq<char>) -> Seq<char> {
    trim(regex_replace_spec(CI_TIMESTAMP_RE@, line, ""@))
}

/// Clean up CI log line by removing timestamp prefix
pub fn clean_ci_line(line: &str) -> (res: String)
    ensures
        res@ == clean_ci_line_spec(line@),
{
    let r = regex_replace(CI_TIMESTAMP_RE, line, "");
    string_from_chars(&trim_chars(&chars_of(r.as_str())))
}

/// The part of the logs between `Failures:` and `Failed examples:` (or the
/// end), when there is a `Failures:`.
pub open spec fn failures_section(logs: Seq<char>) -> Option<Seq<char>> {
    match find(logs, "Failures:"@) {
        None => None,
        Some(a) => Some(
            logs.subrange(
                a,
                match find(logs, "Failed examples:"@) {
                    Some(b) => b,
                    None => logs.len() as int,
                },
            ),
        ),
    }
}

/// Logs the failure parser can slice: `Failed examples:` does not come
/// before `Failures:`.
pub open spec fn failure_logs_ok(logs: Seq<char>) -> bool {
    match (find(logs, "Failures:"@), find(logs, "Failed examples:"@)) {
        (Some(a), Some(b)) => a <= b,
        _ => true,
    }
}

/// The character positions where the failure blocks of a section begin.
pub open spec fn block_positions(section: Seq<char>) -> Seq<nat> {
    regex_match_starts_spec(FAILURE_BLOCK_RE@, section).map_values(
        |b: usize| chars_for_bytes(section, b as nat).unwrap(),
    )
}

/// The `i`-th failure block: from its start to the next block or the end.
pub open spec fn block_at(section: Seq<char>, ps: Seq<nat>, i: int) -> Seq<char> {
    section.subrange(
        ps[i] as int,
        if i + 1 < ps.len() {
            ps[i + 1] as int
        } else {
            section.len() as int
        },
    )
}

/// The lines cleaned of timestamps, without the empty ones.
pub open spec fn nonempty_cleaned(ls: Seq<Seq<char>>) -> Seq<Seq<char>>
    decreases ls.len(),
{
    if ls.len() == 0 {
        seq![]
    } else {
        let rest = nonempty_cleaned(ls.drop_last());
        let c = clean_ci_line_spec(ls.last());
        if c.len() == 0 {
            rest
        } else {
            rest.push(c)
        }
    }
}

/// `s` without the prefix `p`, or `s` when it does not start with it.
pub open spec fn strip_prefix_or(s: Seq<char>, p: Seq<char>) -> Seq<char> {
    if starts_with(s, p) {
        s.skip(p.len() as int)
    } else {
        s
    }
}

/// The error of a failure block: the code after `Failure/Error:`, and the
/// message on the next non-empty line unless it is a stack line (`# `).
pub open spec fn block_error(block: Seq<char>) -> Option<Seq<char>> {
    match find(block, "Failure/Error:"@) {
        None => None,
        Some(f) => {
            let ls = nonempty_cleaned(lines(block.skip(f)));
            let code = if ls.len() > 0 {
                trim(strip_prefix_or(ls[0], "Failure/Error:"@))
            } else {
                seq![]
            };
            let msg = if ls.len() > 1 {
                ls[1]
            } else {
                seq![]
            };
            Some(
                if msg.len() == 0 || starts_with(msg, "# "@) {
                    code
                } else {
                    code + "\n"@ + msg
                },
            )
        },
    }
}

/// The errors of the first `k` blocks that have one, in order.
pub open spec fn block_errors(section: Seq<char>, ps: Seq<nat>, k: nat) -> Seq<Seq<char>>
    decreases k,
{
    if k == 0 {
        seq![]
    } else {
        let rest = block_errors(section, ps, (k - 1) as nat);
        match block_error(block_at(section, ps, k - 1)) {
            Some(e) => rest.push(e),
            None => rest,
        }
    }
}

/// The error messages of the failure blocks, in order.
pub open spec fn error_messages(logs: Seq<char>) -> Seq<Seq<char>> {
    match failures_section(logs) {
        None => seq![],
        Some(sec) => block_errors(sec, block_positions(sec), block_positions(sec).len()),
    }
}

/// The spec file of each rerun line, in order.
pub open spec fn failed_examples(logs: Seq<char>) -> Seq<Seq<char>> {
    regex_captures_all_spec(FAILED_EXAMPLE_RE@, logs).map_values(
        |g: Seq<Option<Seq<char>>>| if g.len() > 1 && g[1] is Some {
            g[1].unwrap()
        } else {
            seq![]
        },
    )
}

/// Whether a spec file is already among the failures.
pub open spec fn has_spec(fs: Seq<(Seq<char>, Seq<char>)>, spec_file: Seq<char>) -> bool {
    exists|j: int| 0 <= j < fs.len() && (#[trigger] fs[j]).0 == spec_file
}

/// The failures of the first `k` rerun lines: each spec file once, with the
/// error message of the same position ("Test failed" when there is none).
pub open spec fn failures_upto(examples: Seq<Seq<char>>, errors: Seq<Seq<char>>, k: nat) -> Seq<
    (Seq<char>, Seq<char>),
>
    decreases k,
{
    if k == 0 {
        seq![]
    } else {
        let rest = failures_upto(examples, errors, (k - 1) as nat);
        let spec_file = examples[k - 1];
        let text = if k - 1 < errors.len() {
            errors[k - 1]
        } else {
            "Test failed"@
        };
        if has_spec(rest, spec_file) {
            rest
        } else {
            rest.push((spec_file, text))
        }
    }
}

/// The test failures of RSpec logs.
pub open spec fn test_failures_spec(logs: Seq<char>) -> Seq<(Seq<char>, Seq<char>)> {
    let ex = failed_examples(logs);
    failures_upto(ex, error_messages(logs), ex.len())
}

/// The views of test failures.
pub open spec fn failures_view(fs: Seq<TestFailure>) -> Seq<(Seq<char>, Seq<char>)> {
    fs.map_values(|f: TestFailure| (f.spec_file@, f.failure_text@))
}

fn nonempty_cleaned_exec(ls: &Vec<Vec<char>>) -> (res: Vec<Vec<char>>)
    ensures
        vv(res@) == nonempty_cleaned(vv(ls@)),
{
    let mut res: Vec<Vec<char>> = Vec::new();
    let mut i: usize = 0;
    while i < ls.len()
        invariant
            i <= ls.len(),
            vv(res@) == nonempty_cleaned(vv(ls@).take(i as int)),
        decreases ls.len() - i,
    {
        assert(vv(ls@).take(i + 1).drop_last() =~= vv(ls@).take(i as int));
        let line = string_from_chars(&ls[i]);
        let c = clean_ci_line(line.as_str());
        let cc = chars_of(c.as_str());
        if cc.len() > 0 {
            let ghost before = res@;
            res.push(cc);
            assert(vv(res@) =~= vv(before).push(cc@));
        }
        i = i + 1;
    }
    assert(vv(ls@).take(ls.len() as int) =~= vv(ls@));
    res
}

fn block_error_exec(block: &Vec<char>) -> (res: Option<Vec<char>>)
    ensures
        match res {
            Some(e) => block_error(block@) == Some(e@),
            None => block_error(block@) is None,
        },
{
    let marker = chars_of("Failure/Error:");
    let f = match find_exec(block, &marker) {
        Some(f) => f,
        None => {
            return None;
        },
    };
    proof {
        crate::text::lemma_find_from_bounds(block@, marker@, 0);
    }
    let after = sub_chars(block, f, block.len());
    assert(after@ =~= block@.skip(f as int));
    let ls = nonempty_cleaned_exec(&lines_of(&after));
    let code = if ls.len() > 0 {
        let first = &ls[0];
        let stripped = if starts_with_exec(first, &marker) {
            let r = sub_chars(first, marker.len(), first.len());
            assert(r@ =~= first@.skip(marker@.len() as int));
            r
        } else {
            let r = sub_chars(first, 0, first.len());
            assert(r@ =~= first@);
            r
        };
        trim_chars(&stripped)
    } else {
        Vec::new()
    };
    let empty: Vec<char> = Vec::new();
    let msg = if ls.len() > 1 {
        &ls[1]
    } else {
        &empty
    };
    if msg.len() == 0 || starts_with_exec(msg, &chars_of("# ")) {
        Some(code)
    } else {
        let mut out = code;
        push_str(&mut out, "\n");
        push_chars(&mut out, msg);
        Some(out)
    }
}

/// Character positions grow with byte positions.
proof fn lemma_chars_for_bytes_monotone(s: Seq<char>, a: nat, b: nat)
    requires
        a <= b,
        chars_for_bytes(s, a) is Some,
        chars_for_bytes(s, b) is Some,
    ensures
        chars_for_bytes(s, a).unwrap() <= chars_for_bytes(s, b).unwrap(),
        chars_for_bytes(s, b).unwrap() <= s.len(),
{
    let ka = chars_for_bytes(s, a).unwrap();
    let kb = chars_for_bytes(s, b).unwrap();
    if ka > kb {
        crate::text::lemma_prefix_bytes_strict(s, kb as int, ka as int);
    }
}

fn error_messages_exec(logs: &Vec<char>) -> (res: Vec<Vec<char>>)
    requires
        failure_logs_ok(logs@),
    ensures
        vv(res@) == error_messages(logs@),
{
    let start_marker = chars_of("Failures:");
    let a = match find_exec(logs, &start_marker) {
        Some(a) => a,
        None => {
            return Vec::new();
        },
    };
    let end = match find_exec(logs, &chars_of("Failed examples:")) {
        Some(b) => b,
        None => logs.len(),
    };
    proof {
        crate::text::lemma_find_from_bounds(logs@, start_marker@, 0);
        crate::text::lemma_find_from_bounds(logs@, "Failed examples:"@, 0);
    }
    let section = sub_chars(logs, a, end);
    let sec_text = string_from_chars(&section);
    let starts = regex_match_starts(FAILURE_BLOCK_RE, sec_text.as_str());
    let ghost ps = block_positions(section@);
    let mut cps: Vec<usize> = Vec::new();
    let mut i: usize = 0;
    while i < starts.len()
        invariant
            i <= starts.len(),
            starts@ == regex_match_starts_spec(FAILURE_BLOCK_RE@, section@),
            forall|m: int| 0 <= m < starts@.len() ==> chars_for_bytes(section@, #[trigger] starts@[m] as nat) is Some,
            forall|m: int, n: int| 0 <= m <= n < starts@.len() ==> starts@[m] <= starts@[n],
            ps == block_positions(section@),
            cps@.len() == i,
            forall|m: int| 0 <= m < i ==> cps@[m] == ps[m],
        decreases starts.len() - i,
    {
        let k = chars_for_bytes_exec(&section, starts[i]);
        match k {
            Some(k) => {
                cps.push(k);
            },
            None => {
                proof {
                    assert(chars_for_bytes(section@, starts@[i as int] as nat) is Some);
                }
                cps.push(0);
            },
        }
        i = i + 1;
    }
    proof {
        assert forall|m: int, n: int| 0 <= m <= n < ps.len() implies ps[m] <= ps[n] && ps[n]
            <= section@.len() by {
            lemma_chars_for_bytes_monotone(section@, starts@[m] as nat, starts@[n] as nat);
        }
    }
    let mut res: Vec<Vec<char>> = Vec::new();
    let slen = section.len();
    let mut j: usize = 0;
    while j < cps.len()
        invariant
            j <= cps.len(),
            slen == section@.len(),
            cps@.len() == ps.len(),
            forall|m: int| 0 <= m < cps@.len() ==> cps@[m] == ps[m],
            forall|m: int, n: int| 0 <= m <= n < ps.len() ==> ps[m] <= ps[n] && ps[n] <= section@.len(),
            vv(res@) == block_errors(section@, ps, j as nat),
        decreases cps.len() - j,
    {
        let next = if j + 1 < cps.len() {
            assert(cps@[j + 1] == ps[j + 1]);
            assert(ps[j as int] <= ps[j + 1]);
            cps[j + 1]
        } else {
            slen
        };
        assert(cps@[j as int] == ps[j as int]);
        assert(ps[j as int] <= section@.len());
        let block = sub_chars(&section, cps[j], next);
        assert(block@ =~= block_at(section@, ps, j as int));
        let ghost before = res@;
        match block_error_exec(&block) {
            Some(e) => {
                res.push(e);
                assert(vv(res@) =~= vv(before).push(block_error(block@).unwrap()));
            },
            None => {},
        }
        j = j + 1;
    }
    res
}

/// Extract test failures from logs (RSpec format)
pub fn parse_test_failures(logs: &str) -> (res: Vec<TestFailure>)
    requires
        failure_logs_ok(logs@),
    ensures
        failures_view(res@) == test_failures_spec(logs@),
{
    let l = chars_of(logs);
    let errors = error_messages_exec(&l);
    let caps = regex_captures_all(FAILED_EXAMPLE_RE, logs);
    let ghost ex = failed_examples(logs@);
    let mut failures: Vec<TestFailure> = Vec::new();
    let mut i: usize = 0;
    while i < caps.len()
        invariant
            i <= caps.len(),
            caps@.map_values(|g: Vec<Option<String>>| groups_view(g@)) == regex_captures_all_spec(
                FAILED_EXAMPLE_RE@,
                logs@,
            ),
            ex == failed_examples(logs@),
            ex.len() == caps@.len(),
            vv(errors@) == error_messages(logs@),
            failures_view(failures@) == failures_upto(ex, vv(errors@), i as nat),
        decreases caps.len() - i,
    {
        let g = &caps[i];
        assert(groups_view(g@) == caps@.map_values(|g: Vec<Option<String>>| groups_view(g@))[i as int]);
        let spec_file: Vec<char> = if g.len() > 1 {
            match &g[1] {
                Some(s) => chars_of(s.as_str()),
                None => Vec::new(),
            }
        } else {
            Vec::new()
        };
        assert(spec_file@ == ex[i as int]);
        let text: Vec<char> = if i < errors.len() {
            let e = &errors[i];
            let r = sub_chars(e, 0, e.len());
            assert(r@ =~= e@);
            r
        } else {
            chars_of("Test failed")
        };
        let mut found = false;
        let mut j: usize = 0;
        while j < failures.len()
            invariant
                j <= failures.len(),
                found == exists|m: int| 0 <= m < j && (#[trigger] failures_view(failures@)[m]).0
                    == spec_file@,
            decreases failures.len() - j,
        {
            assert(failures_view(failures@)[j as int] == (
                failures@[j as int].spec_file@,
                failures@[j as int].failure_text@,
            ));
            if chars_eq(&chars_of(failures[j].spec_file.as_str()), &spec_file) {
                found = true;
            }
            j = j + 1;
        }
        if !found {
            let ghost before = failures@;
            failures.push(
                TestFailure {
                    spec_file: string_from_chars(&spec_file),
                    failure_text: string_from_chars(&text),
                },
            );
            assert(failures_view(failures@) =~= failures_view(before).push((spec_file@, text@)));
        }
        i = i + 1;
    }
    failures
}

/// The report of test failures: each failure's spec file and error, then
/// the commands that rerun them.
pub open spec fn failures_report_spec(fs: Seq<(Seq<char>, Seq<char>)>) -> Seq<char> {
    "\n# Test Failures\n\n"@ + failure_sections(fs) + "# Rerun Commands\n\n```bash\n"@ + rerun_lines(fs)
        + "```\n"@
}

/// The section of each failure.
pub open spec fn failure_sections(fs: Seq<(Seq<char>, Seq<char>)>) -> Seq<char>
    decreases fs.len(),
{
    if fs.len() == 0 {
        seq![]
    } else {
        failure_sections(fs.drop_last()) + "## "@ + fs.last().0 + "\n\n```\n"@ + fs.last().1
            + "\n```\n\n"@
    }
}

/// The rerun command of each failure.
pub open spec fn rerun_lines(fs: Seq<(Seq<char>, Seq<char>)>) -> Seq<char>
    decreases fs.len(),
{
    if fs.len() == 0 {
        seq![]
    } else {
        rerun_lines(fs.drop_last()) + "bundle exec rspec "@ + fs.last().0 + "\n"@
    }
}

/// The text printed for the test failures of a run.
pub fn failures_report(failures: &Vec<TestFailure>) -> (res: String)
    ensures
        res@ == failures_report_spec(failures_view(failures@)),
{
    let ghost fv = failures_view(failures@);
    let mut sections: Vec<char> = Vec::new();
    let mut reruns: Vec<char> = Vec::new();
    let mut i: usize = 0;
    while i < failures.len()
        invariant
            i <= failures.len(),
            fv == failures_view(failures@),
            sections@ == failure_sections(fv.take(i as int)),
            reruns@ == rerun_lines(fv.take(i as int)),
        decreases failures.len() - i,
    {
        assert(fv.take(i + 1).drop_last() =~= fv.take(i as int));
        let f = &failures[i];
        push_str(&mut sections, "## ");
        push_str(&mut sections, f.spec_file.as_str());
        push_str(&mut sections, "\n\n```\n");
        push_str(&mut sections, f.failure_text.as_str());
        push_str(&mut sections, "\n```\n\n");
        push_str(&mut reruns, "bundle exec rspec ");
        push_str(&mut reruns, f.spec_file.as_str());
        push_str(&mut reruns, "\n");
        i = i + 1;
    }
    assert(fv.take(failures.len() as int) =~= fv);
    let mut out = chars_of("\n# Test Failures\n\n");
    push_chars(&mut out, &sections);
    push_str(&mut out, "# Rerun Commands\n\n```bash\n");
    push_chars(&mut out, &reruns);
    push_str(&mut out, "```\n");
    string_from_chars(&out)
}

/// The rerun command of one failure: its own line.
pub open spec fn rerun_command(f: (Seq<char>, Seq<char>)) -> Seq<char> {
    "bundle exec rspec "@ + f.0 + "\n"@
}

/// The section of one failure: its spec file as a heading, its error in a
/// code block.
pub open spec fn failure_section(f: (Seq<char>, Seq<char>)) -> Seq<char> {
    "## "@ + f.0 + "\n\n```\n"@ + f.1 + "\n```\n\n"@
}

proof fn lemma_sections_flat(fs: Seq<(Seq<char>, Seq<char>)>)
    ensures
        failure_sections(fs) == Seq::new(fs.len(), |i: int| failure_section(fs[i])).flatten(),
        rerun_lines(fs) == Seq::new(fs.len(), |i: int| rerun_command(fs[i])).flatten(),
    decreases fs.len(),
{
    let a = Seq::new(fs.len(), |i: int| failure_section(fs[i]));
    let b = Seq::new(fs.len(), |i: int| rerun_command(fs[i]));
    a.lemma_flatten_and_flatten_alt_are_equivalent();
    b.lemma_flatten_and_flatten_alt_are_equivalent();
    if fs.len() > 0 {
        let p = fs.drop_last();
        lemma_sections_flat(p);
        let a0 = Seq::new(p.len(), |i: int| failure_section(p[i]));
        let b0 = Seq::new(p.len(), |i: int| rerun_command(p[i]));
        a0.lemma_flatten_and_flatten_alt_are_equivalent();
        b0.lemma_flatten_and_flatten_alt_are_equivalent();
        assert(a.drop_last() =~= a0);
        assert(b.drop_last() =~= b0);
        assert(failure_sections(fs) =~= failure_sections(p) + failure_section(fs.last()));
        assert(rerun_lines(fs) =~= rerun_lines(p) + rerun_command(fs.last()));
    }
}

/// The failure report is, in order: its title; one section per failure,
/// each in the order of the failures, with the spec file as heading and the
/// error in a code block; then a shell block with one rerun command per
/// failure, again in order.
pub proof fn lemma_failures_report_layout(fs: Seq<(Seq<char>, Seq<char>)>)
    ensures
        failures_report_spec(fs) == "\n# Test Failures\n\n"@ + Seq::new(
            fs.len(),
            |i: int| "## "@ + fs[i].0 + "\n\n```\n"@ + fs[i].1 + "\n```\n\n"@,
        ).flatten() + "# Rerun Commands\n\n```bash\n"@ + Seq::new(
            fs.len(),
            |i: int| "bundle exec rspec "@ + fs[i].0 + "\n"@,
        ).flatten() + "```\n"@,
{
    lemma_sections_flat(fs);
    assert(Seq::new(fs.len(), |i: int| failure_section(fs[i])) =~= Seq::new(
        fs.len(),
        |i: int| "## "@ + fs[i].0 + "\n\n```\n"@ + fs[i].1 + "\n```\n\n"@,
    ));
    assert(Seq::new(fs.len(), |i: int| rerun_command(fs[i])) =~= Seq::new(
        fs.len(),
        |i: int| "bundle exec rspec "@ + fs[i].0 + "\n"@,
    ));
}

} // verus!
