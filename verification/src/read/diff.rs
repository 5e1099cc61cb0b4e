//! Colouring of unified diffs and parsing of their hunk headers.

use vstd::prelude::*;
use crate::matcher::{regex_captures_all, regex_captures_all_spec, groups_view};
use crate::read::rules::{group, group_exec};
use crate::text::{
    chars_eq_str, chars_of, join, join_chars, lemma_lines_from_no_newline, lemma_split_join, lines,
    lines_of, no_newline, split_nl, parse_usize, parse_usize_spec, push_chars,
    push_str, starts_with, starts_with_exec, string_from_chars, vv,
};

verus! {

pub const HUNK_RE: &'static str = r"@@ -(\d+)(?:,(\d+))? \+(\d+)(?:,(\d+))? @@";

/// One diff line with its colour: green for added lines, red for removed
/// lines (but not the `+++`/`---` file headers), cyan for hunk headers, dim
/// for `diff`/`index` headers, unchanged otherwise.
pub open spec fn color_diff_line(l: Seq<char>) -> Seq<char> {
    if starts_with(l, "+"@) && !starts_with(l, "+++"@) {
        "\x1b[32m"@ + l + "\x1b[0m"@
    } else if starts_with(l, "-"@) && !starts_with(l, "---"@) {
        "\x1b[31m"@ + l + "\x1b[0m"@
    } else if starts_with(l, "@@"@) {
        "\x1b[36m"@ + l + "\x1b[0m"@
    } else if starts_with(l, "diff"@) || starts_with(l, "index"@) {
        "\x1b[2m"@ + l + "\x1b[0m"@
    } else {
        l
    }
}

/// The coloured diff: `No changes` stays as it is; otherwise each line is
/// coloured and the lines are joined with newlines.
pub open spec fn format_diff_spec(diff: Seq<char>) -> Seq<char> {
    if diff == "No changes"@ {
        diff
    } else {
        join(lines(diff).map_values(|l: Seq<char>| color_diff_line(l)), "\n"@)
    }
}

/// A coloured line keeps the line between its escapes and adds no newline.
proof fn lemma_color_line_no_newline(l: Seq<char>)
    requires
        no_newline(l),
    ensures
        no_newline(color_diff_line(l)),
{
    reveal_strlit("\x1b[32m");
    reveal_strlit("\x1b[31m");
    reveal_strlit("\x1b[36m");
    reveal_strlit("\x1b[2m");
    reveal_strlit("\x1b[0m");
    let c = color_diff_line(l);
    assert forall|i: int| 0 <= i < c.len() implies c[i] != '\n' by {
        let pre = if starts_with(l, "+"@) && !starts_with(l, "+++"@) {
            "\x1b[32m"@
        } else if starts_with(l, "-"@) && !starts_with(l, "---"@) {
            "\x1b[31m"@
        } else if starts_with(l, "@@"@) {
            "\x1b[36m"@
        } else if starts_with(l, "diff"@) || starts_with(l, "index"@) {
            "\x1b[2m"@
        } else {
            seq![]
        };
        if pre.len() > 0 {
            assert(c == pre + l + "\x1b[0m"@);
            if i < pre.len() {
                assert(c[i] == pre[i]);
            } else if i < pre.len() + l.len() {
                assert(c[i] == l[i - pre.len()]);
            } else {
                assert(c[i] == "\x1b[0m"@[i - pre.len() - l.len()]);
            }
        }
    }
}

/// A coloured diff keeps the diff's lines: split at its newlines it has
/// exactly one piece per line of the diff, and the `k`-th piece is the
/// `k`-th line in its colour.
pub proof fn lemma_format_diff_keeps_lines(diff: Seq<char>)
    requires
        diff != "No changes"@,
        lines(diff).len() > 0,
    ensures
        split_nl(format_diff_spec(diff)).len() == lines(diff).len(),
        forall|k: int|
            0 <= k < lines(diff).len() ==> split_nl(format_diff_spec(diff))[k] == color_diff_line(
                #[trigger] lines(diff)[k],
            ),
{
    let ls = lines(diff);
    let cs = ls.map_values(|l: Seq<char>| color_diff_line(l));
    lemma_lines_from_no_newline(diff, 0);
    assert forall|i: int| 0 <= i < cs.len() implies no_newline(#[trigger] cs[i]) by {
        assert(no_newline(ls[i]));
        lemma_color_line_no_newline(ls[i]);
    }
    lemma_split_join(cs);
}

fn starts_with_str(v: &Vec<char>, p: &str) -> (b: bool)
    ensures
        b == starts_with(v@, p@),
{
    let pc = chars_of(p);
    starts_with_exec(v, &pc)
}

fn color_diff_line_exec(l: &Vec<char>) -> (res: Vec<char>)
    ensures
        res@ == color_diff_line(l@),
{
    let mut out: Vec<char> = Vec::new();
    if starts_with_str(l, "+") && !starts_with_str(l, "+++") {
        push_str(&mut out, "\x1b[32m");
        push_chars(&mut out, l);
        push_str(&mut out, "\x1b[0m");
    } else if starts_with_str(l, "-") && !starts_with_str(l, "---") {
        push_str(&mut out, "\x1b[31m");
        push_chars(&mut out, l);
        push_str(&mut out, "\x1b[0m");
    } else if starts_with_str(l, "@@") {
        push_str(&mut out, "\x1b[36m");
        push_chars(&mut out, l);
        push_str(&mut out, "\x1b[0m");
    } else if starts_with_str(l, "diff") || starts_with_str(l, "index") {
        push_str(&mut out, "\x1b[2m");
        push_chars(&mut out, l);
        push_str(&mut out, "\x1b[0m");
    } else {
        push_chars(&mut out, l);
    }
    out
}

/// Format diff output with colors
pub fn format_diff(diff: &str) -> (res: String)
    ensures
        res@ == format_diff_spec(diff@),
{
    let cs = chars_of(diff);
    if chars_eq_str(&cs, "No changes") {
        return string_from_chars(&cs);
    }
    let ls = lines_of(&cs);
    let mut out: Vec<Vec<char>> = Vec::new();
    let mut i: usize = 0;
    while i < ls.len()
        invariant
            i <= ls.len(),
            vv(out@) == vv(ls@).take(i as int).map_values(|l: Seq<char>| color_diff_line(l)),
        decreases ls.len() - i,
    {
        let c = color_diff_line_exec(&ls[i]);
        let ghost before = out@;
        out.push(c);
        assert(vv(out@) =~= vv(ls@).take(i + 1).map_values(|l: Seq<char>| color_diff_line(l))) by {
            assert(vv(out@) =~= vv(before).push(c@));
        }
        i = i + 1;
    }
    assert(vv(ls@).take(ls.len() as int) =~= vv(ls@));
    let joined = join_chars(&out, "\n");
    string_from_chars(&joined)
}

/// The text `git diff` printed, or `No changes` when it printed nothing.
pub open spec fn diff_text_spec(stdout: Seq<char>) -> Seq<char> {
    if stdout.len() == 0 {
        "No changes"@
    } else {
        stdout
    }
}

/// What a diff request shows for the output of `git diff`.
pub fn diff_text(stdout: String) -> (res: String)
    ensures
        res@ == diff_text_spec(stdout@),
{
    if stdout.as_str().is_empty() {
        "No changes".to_string()
    } else {
        stdout
    }
}

/// A diff hunk (changed section)
#[derive(Debug, Clone, Copy, PartialEq, Eq)]
pub struct DiffHunk {
    pub old_start: usize,
    pub old_count: usize,
    pub new_start: usize,
    pub new_count: usize,
}

/// The number in `s`, or `default` when `s` is not a number that fits.
pub open spec fn parse_or(s: Seq<char>, default: usize) -> usize {
    match parse_usize_spec(s) {
        Some(n) => n,
        None => default,
    }
}

/// The hunk a header match describes: starts default to 0 and counts to 1
/// when absent or unreadable.
pub open spec fn hunk_of(g: Seq<Option<Seq<char>>>) -> DiffHunk {
    DiffHunk {
        old_start: parse_or(group(g, 1), 0),
        old_count: parse_or(group(g, 2), 1),
        new_start: parse_or(group(g, 3), 0),
        new_count: parse_or(group(g, 4), 1),
    }
}

/// The hunks of a diff, one per `@@ -a,b +c,d @@` header, in order.
pub open spec fn parse_diff_hunks_spec(diff: Seq<char>) -> Seq<DiffHunk> {
    regex_captures_all_spec(HUNK_RE@, diff).map_values(|g: Seq<Option<Seq<char>>>| hunk_of(g))
}

fn parse_or_exec(g: &Vec<Option<String>>, i: usize, default: usize) -> (res: usize)
    ensures
        res == parse_or(group(groups_view(g@), i as int), default),
{
    let s = group_exec(g, i);
    match parse_usize(&s) {
        Some(n) => n,
        None => default,
    }
}

/// Parse diff to extract changed line ranges
pub fn parse_diff_hunks(diff: &str) -> (res: Vec<DiffHunk>)
    ensures
        res@ == parse_diff_hunks_spec(diff@),
{
    let all = regex_captures_all(HUNK_RE, diff);
    let ghost gs = all@.map_values(|g: Vec<Option<String>>| groups_view(g@));
    let mut hunks: Vec<DiffHunk> = Vec::new();
    let mut i: usize = 0;
    while i < all.len()
        invariant
            i <= all.len(),
            gs == all@.map_values(|g: Vec<Option<String>>| groups_view(g@)),
            hunks@ == gs.take(i as int).map_values(|g: Seq<Option<Seq<char>>>| hunk_of(g)),
        decreases all.len() - i,
    {
        let g = &all[i];
        let h = DiffHunk {
            old_start: parse_or_exec(g, 1, 0),
            old_count: parse_or_exec(g, 2, 1),
            new_start: parse_or_exec(g, 3, 0),
            new_count: parse_or_exec(g, 4, 1),
        };
        hunks.push(h);
        assert(hunks@ =~= gs.take(i + 1).map_values(|g: Seq<Option<Seq<char>>>| hunk_of(g)));
        i = i + 1;
    }
    assert(gs.take(all.len() as int) =~= gs);
    hunks
}

} // verus!
