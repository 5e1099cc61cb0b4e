//! Windows of numbered lines around a line of interest.

use vstd::prelude::*;
use crate::text::{
    chars_of, dec, dec_chars, join, join_chars, lemma_split_join, lines, lines_of, no_newline, pad_left,
    push_chars, push_padded_left, push_str, split_nl, string_from_chars, vv,
};

verus! {

/// The views of numbered lines.
pub open spec fn numbered_view(v: Seq<(usize, String)>) -> Seq<(nat, Seq<char>)> {
    v.map_values(|p: (usize, String)| (p.0 as nat, p.1@))
}

/// First line index (0-based) of the window around `center` (1-based).
pub open spec fn window_start(center: nat, context: nat) -> nat {
    if center - 1 >= context {
        (center - 1 - context) as nat
    } else {
        0
    }
}

/// One past the last line index of the window.
pub open spec fn window_end(center: nat, context: nat, total: nat) -> nat {
    if center + context <= total {
        center + context
    } else {
        total
    }
}

/// Whether `extract_lines_around` can take the window: for a non-empty
/// text and a line other than 0, the window's last line must be a number
/// and its start must not lie past its end.
pub open spec fn window_ok(content: Seq<char>, center: nat, context: nat) -> bool {
    let total = lines(content).len();
    total == 0 || center == 0 || (center + context <= usize::MAX && window_start(center, context)
        <= window_end(center, context, total))
}

/// The numbered lines `start+1 ..= end` of `ls`.
pub open spec fn window(ls: Seq<Seq<char>>, start: nat, end: nat) -> Seq<(nat, Seq<char>)> {
    Seq::new((end - start) as nat, |k: int| ((start + k + 1) as nat, ls[start + k]))
}

/// The numbered lines around `center`: none for an empty text or line 0.
pub open spec fn around_spec(content: Seq<char>, center: nat, context: nat) -> Seq<(nat, Seq<char>)> {
    let total = lines(content).len();
    if total == 0 || center == 0 {
        seq![]
    } else {
        window(lines(content), window_start(center, context), window_end(center, context, total))
    }
}

/// Whether `extract_lines_around` can take this window of `content`.
pub fn window_fits(content: &str, center: usize, context: usize) -> (res: bool)
    ensures
        res == window_ok(content@, center as nat, context as nat),
{
    let total = lines_of(&chars_of(content)).len();
    if total == 0 || center == 0 {
        return true;
    }
    if center > usize::MAX - context {
        return false;
    }
    let start = if center - 1 >= context { center - 1 - context } else { 0 };
    let end = if center + context <= total { center + context } else { total };
    start <= end
}

/// Extract lines around a center line with context
pub fn extract_lines_around(content: &str, center: usize, context: usize) -> (res: (
    Vec<(usize, String)>,
    usize,
))
    requires
        window_ok(content@, center as nat, context as nat),
    ensures
        res.1 == lines(content@).len(),
        (res.1 == 0 || center == 0) ==> res.0@.len() == 0,
        (res.1 != 0 && center != 0) ==> numbered_view(res.0@) == window(
            lines(content@),
            window_start(center as nat, context as nat),
            window_end(center as nat, context as nat, res.1 as nat),
        ),
{
    let cs = chars_of(content);
    let ls = lines_of(&cs);
    let total = ls.len();
    if total == 0 || center == 0 {
        return (Vec::new(), total);
    }
    let center_idx = center - 1;
    let start = if center_idx >= context { center_idx - context } else { 0 };
    let end = if center_idx + context + 1 <= total { center_idx + context + 1 } else { total };
    let mut result: Vec<(usize, String)> = Vec::new();
    let mut i = start;
    while i < end
        invariant
            start <= i <= end <= total,
            total == ls@.len(),
            vv(ls@) == lines(content@),
            start == window_start(center as nat, context as nat),
            end == window_end(center as nat, context as nat, total as nat),
            numbered_view(result@) == window(vv(ls@), start as nat, i as nat),
        decreases end - i,
    {
        let s = string_from_chars(&ls[i]);
        let ghost before = result@;
        result.push((i + 1, s));
        assert(numbered_view(result@) =~= window(vv(ls@), start as nat, (i + 1) as nat)) by {
            assert(numbered_view(result@) =~= numbered_view(before).push(((i + 1) as nat, ls@[i as int]@)));
        }
        i = i + 1;
    }
    (result, total)
}

/// One displayed line: marker, right-aligned number, colon, text.
pub open spec fn around_line(num: nat, text: Seq<char>, center: nat, width: nat) -> Seq<char> {
    (if num == center { ">"@ } else { " "@ }) + pad_left(dec(num), width) + ": "@ + text
}

/// The formatted window: one line per entry, joined by newlines.
pub open spec fn format_around_spec(lines: Seq<(nat, Seq<char>)>, center: nat, total: nat) -> Seq<char> {
    if lines.len() == 0 {
        "No content"@
    } else {
        join(
            Seq::new(lines.len(), |k: int| around_line(lines[k].0, lines[k].1, center, dec(total).len())),
            "\n"@,
        )
    }
}

/// Format lines with line numbers and highlight center
pub fn format_lines_around(lines: &[(usize, String)], center: usize, total_lines: usize) -> (res: String)
    ensures
        res@ == format_around_spec(numbered_view(lines@), center as nat, total_lines as nat),
{
    if lines.len() == 0 {
        return "No content".to_string();
    }
    let width = dec_chars(total_lines as u64).len();
    let mut output: Vec<Vec<char>> = Vec::new();
    let mut i: usize = 0;
    while i < lines.len()
        invariant
            i <= lines.len(),
            width == dec(total_lines as nat).len(),
            vv(output@) == Seq::new(i as nat, |k: int| around_line(numbered_view(lines@)[k].0,
                numbered_view(lines@)[k].1, center as nat, width as nat)),
        decreases lines.len() - i,
    {
        let num = lines[i].0;
        let mut l: Vec<char> = Vec::new();
        if num == center {
            push_str(&mut l, ">");
        } else {
            push_str(&mut l, " ");
        }
        let d = dec_chars(num as u64);
        push_padded_left(&mut l, &d, width);
        push_str(&mut l, ": ");
        let t = chars_of(lines[i].1.as_str());
        push_chars(&mut l, &t);
        let ghost before = output@;
        output.push(l);
        assert(vv(output@) =~= Seq::new((i + 1) as nat, |k: int| around_line(numbered_view(lines@)[k].0,
                numbered_view(lines@)[k].1, center as nat, width as nat))) by {
            assert(vv(output@) =~= vv(before).push(l@));
        }
        i = i + 1;
    }
    let joined = join_chars(&output, "\n");
    string_from_chars(&joined)
}

/// Line `n` lies within `context` lines of `center`.
pub open spec fn near(n: nat, center: nat, context: nat) -> bool {
    center <= n + context && n <= center + context
}

/// The window around a line holds exactly the lines within `context` of
/// it, numbered from 1, in order, each with its text: for a non-empty text
/// and a line other than 0, an entry is numbered `n` with `1 <= n <= total`
/// and `center - context <= n <= center + context`, carries line `n`, the
/// numbers rise by one, and every such line is there.
pub proof fn lemma_around_window(content: Seq<char>, center: nat, context: nat)
    requires
        window_ok(content, center, context),
        lines(content).len() > 0,
        center > 0,
    ensures
        forall|j: int|
            0 <= j < around_spec(content, center, context).len() ==> {
                let (n, t) = #[trigger] around_spec(content, center, context)[j];
                &&& 1 <= n <= lines(content).len()
                &&& center <= n + context
                &&& n <= center + context
                &&& t == lines(content)[n - 1]
                &&& n == around_spec(content, center, context)[0].0 + j
            },
        forall|n: nat|
            1 <= n <= lines(content).len() && #[trigger] near(n, center, context) ==> exists|j: int|
                0 <= j < around_spec(content, center, context).len() && (#[trigger] around_spec(
                    content,
                    center,
                    context,
                )[j]).0 == n,
{
    let r = around_spec(content, center, context);
    let s = window_start(center, context);
    assert forall|n: nat|
        1 <= n <= lines(content).len() && #[trigger] near(n, center, context) implies exists|j: int|
            0 <= j < r.len() && (#[trigger] r[j]).0 == n by {
        let j = n - s - 1;
        assert(0 <= j < r.len());
        assert(r[j].0 == n);
    }
}

/// A formatted window keeps one line per entry: split at its newlines it
/// has as many pieces as entries, and piece `j` is a marker (`>` on the
/// centre line, a space elsewhere), the entry's number right-aligned to the
/// width of the total line count, `: `, then the entry's text.
pub proof fn lemma_format_around_lines(ls: Seq<(nat, Seq<char>)>, center: nat, total: nat)
    requires
        ls.len() > 0,
        forall|j: int| 0 <= j < ls.len() ==> no_newline((#[trigger] ls[j]).1),
    ensures
        split_nl(format_around_spec(ls, center, total)).len() == ls.len(),
        forall|j: int|
            0 <= j < ls.len() ==> split_nl(format_around_spec(ls, center, total))[j] == (if (#[trigger] ls[j]).0
                == center {
                ">"@
            } else {
                " "@
            }) + pad_left(dec(ls[j].0), dec(total).len()) + ": "@ + ls[j].1,
{
    let w = dec(total).len();
    let parts = Seq::new(ls.len(), |k: int| around_line(ls[k].0, ls[k].1, center, w));
    reveal_strlit(">");
    reveal_strlit(" ");
    reveal_strlit(": ");
    assert forall|k: int| 0 <= k < parts.len() implies no_newline(#[trigger] parts[k]) by {
        let m: Seq<char> = if ls[k].0 == center { ">"@ } else { " "@ };
        let d = pad_left(dec(ls[k].0), w);
        crate::text::lemma_dec_digits(ls[k].0);
        crate::text::lemma_pad_left_digits(dec(ls[k].0), w);
        let p = parts[k];
        assert(p == m + d + ": "@ + ls[k].1);
        assert forall|i: int| 0 <= i < p.len() implies p[i] != '\n' by {
            if i < 1 {
                assert(p[i] == m[i]);
            } else if i < 1 + d.len() {
                assert(p[i] == d[i - 1]);
            } else if i < 1 + d.len() + 2 {
                assert(p[i] == ": "@[i - 1 - d.len()]);
            } else {
                assert(p[i] == ls[k].1[i - 3 - d.len()]);
            }
        }
    }
    lemma_split_join(parts);
}

} // verus!
