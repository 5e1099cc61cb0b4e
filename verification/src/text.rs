//! Character-level text utilities shared by the whole library.

use vstd::prelude::*;

verus! {

/// Appends one character to a string (`String::push`).
#[verifier::external_body]
pub(crate) fn string_push(s: &mut String, c: char)
    ensures
        final(s)@ == old(s)@.push(c),
{
    s.push(c);
}

/// The characters of a string slice, in order.
pub fn chars_of(s: &str) -> (res: Vec<char>)
    ensures
        res@ == s@,
{
    let mut res: Vec<char> = Vec::new();
    for c in it: s.chars()
        invariant
            res@ == it.seq().take(it.index() as int),
    {
        res.push(c);
    }
    res
}

/// Builds a string from a sequence of characters.
pub fn string_from_chars(v: &Vec<char>) -> (res: String)
    ensures
        res@ == v@,
{
    let mut res = String::new();
    let mut i: usize = 0;
    while i < v.len()
        invariant
            i <= v.len(),
            res@ == v@.take(i as int),
        decreases v.len() - i,
    {
        string_push(&mut res, v[i]);
        assert(v@.take(i as int).push(v@[i as int]) =~= v@.take(i + 1));
        i = i + 1;
    }
    assert(v@.take(v.len() as int) =~= v@);
    res
}


/// Unicode `White_Space`, the set `char::is_whitespace` tests for.
pub open spec fn is_ws(c: char) -> bool {
    ||| c == '\t' || c == '\n' || c == '\u{0B}' || c == '\u{0C}' || c == '\r' || c == ' '
    ||| c == '\u{85}' || c == '\u{A0}' || c == '\u{1680}'
    ||| ('\u{2000}' <= c && c <= '\u{200A}')
    ||| c == '\u{2028}' || c == '\u{2029}' || c == '\u{202F}' || c == '\u{205F}' || c == '\u{3000}'
}

/// Executable test for Unicode white space.
pub fn is_ws_char(c: char) -> (b: bool)
    ensures
        b == is_ws(c),
{
    c == '\t' || c == '\n' || c == '\u{0B}' || c == '\u{0C}' || c == '\r' || c == ' '
        || c == '\u{85}' || c == '\u{A0}' || c == '\u{1680}' || ('\u{2000}' <= c && c <= '\u{200A}')
        || c == '\u{2028}' || c == '\u{2029}' || c == '\u{202F}' || c == '\u{205F}'
        || c == '\u{3000}'
}

/// `s` with leading white space removed.
pub open spec fn trim_start(s: Seq<char>) -> Seq<char>
    decreases s.len(),
{
    if s.len() > 0 && is_ws(s[0]) {
        trim_start(s.drop_first())
    } else {
        s
    }
}

/// `s` with trailing white space removed.
pub open spec fn trim_end(s: Seq<char>) -> Seq<char>
    decreases s.len(),
{
    if s.len() > 0 && is_ws(s.last()) {
        trim_end(s.drop_last())
    } else {
        s
    }
}

/// `s` with white space removed at both ends (`str::trim`).
pub open spec fn trim(s: Seq<char>) -> Seq<char> {
    trim_end(trim_start(s))
}

/// Copies `v[from..to]`.
pub fn sub_chars(v: &Vec<char>, from: usize, to: usize) -> (res: Vec<char>)
    requires
        from <= to <= v.len(),
    ensures
        res@ == v@.subrange(from as int, to as int),
{
    let mut res: Vec<char> = Vec::new();
    let mut i = from;
    while i < to
        invariant
            from <= i <= to <= v.len(),
            res@ == v@.subrange(from as int, i as int),
        decreases to - i,
    {
        res.push(v[i]);
        assert(v@.subrange(from as int, i as int).push(v@[i as int]) =~= v@.subrange(
            from as int,
            i + 1,
        ));
        i = i + 1;
    }
    res
}

/// Copies `v[..n]`.
pub fn sub_chars_take(v: &Vec<char>, n: usize) -> (res: Vec<char>)
    requires
        n <= v.len(),
    ensures
        res@ == v@.take(n as int),
{
    let r = sub_chars(v, 0, n);
    assert(v@.subrange(0, n as int) =~= v@.take(n as int));
    r
}

/// Index of the first character of `v` that is not white space.
pub fn trim_start_index(v: &Vec<char>) -> (i: usize)
    ensures
        i <= v.len(),
        trim_start(v@) == v@.subrange(i as int, v.len() as int),
{
    let mut i: usize = 0;
    assert(v@.subrange(0, v.len() as int) =~= v@);
    while i < v.len() && is_ws_char(v[i])
        invariant
            i <= v.len(),
            trim_start(v@) == trim_start(v@.subrange(i as int, v.len() as int)),
        decreases v.len() - i,
    {
        assert(v@.subrange(i as int, v.len() as int).drop_first() =~= v@.subrange(
            i + 1,
            v.len() as int,
        ));
        i = i + 1;
    }
    i
}

/// Index just past the last character of `v` that is not white space.
pub fn trim_end_index(v: &Vec<char>) -> (j: usize)
    ensures
        j <= v.len(),
        trim_end(v@) == v@.subrange(0, j as int),
{
    let mut j: usize = v.len();
    assert(v@.subrange(0, v.len() as int) =~= v@);
    while j > 0 && is_ws_char(v[j - 1])
        invariant
            j <= v.len(),
            trim_end(v@) == trim_end(v@.subrange(0, j as int)),
        decreases j,
    {
        assert(v@.subrange(0, j as int).drop_last() =~= v@.subrange(0, j - 1));
        j = j - 1;
    }
    j
}

/// `str::trim` on a character vector.
pub fn trim_chars(v: &Vec<char>) -> (res: Vec<char>)
    ensures
        res@ == trim(v@),
{
    let i = trim_start_index(v);
    let t = sub_chars(v, i, v.len());
    let j = trim_end_index(&t);
    sub_chars(&t, 0, j)
}

/// `str::trim_end` on a character vector.
pub fn trim_end_chars(v: &Vec<char>) -> (res: Vec<char>)
    ensures
        res@ == trim_end(v@),
{
    let j = trim_end_index(v);
    sub_chars(v, 0, j)
}

/// `p` occurs in `s` at position `i`.
pub open spec fn matches_at(s: Seq<char>, p: Seq<char>, i: int) -> bool {
    0 <= i && i + p.len() <= s.len() && s.subrange(i, i + p.len()) == p
}

/// The first position at or after `i` where `p` occurs in `s`.
pub open spec fn find_from(s: Seq<char>, p: Seq<char>, i: int) -> Option<int>
    decreases s.len() + 1 - i,
    when 0 <= i
{
    if i + p.len() > s.len() {
        None
    } else if matches_at(s, p, i) {
        Some(i)
    } else {
        find_from(s, p, i + 1)
    }
}

/// The first position where `p` occurs in `s` (`str::find`).
pub open spec fn find(s: Seq<char>, p: Seq<char>) -> Option<int> {
    find_from(s, p, 0)
}

/// `p` occurs somewhere in `s` (`str::contains`).
pub open spec fn contains(s: Seq<char>, p: Seq<char>) -> bool {
    find(s, p) is Some
}

/// `s` begins with `p` (`str::starts_with`).
pub open spec fn starts_with(s: Seq<char>, p: Seq<char>) -> bool {
    p.len() <= s.len() && s.take(p.len() as int) == p
}

/// `s` ends with `p` (`str::ends_with`).
pub open spec fn ends_with(s: Seq<char>, p: Seq<char>) -> bool {
    p.len() <= s.len() && s.skip(s.len() - p.len()) == p
}

/// Whether `p` occurs in `v` at position `i`.
pub fn matches_at_exec(v: &Vec<char>, p: &Vec<char>, i: usize) -> (b: bool)
    ensures
        b == matches_at(v@, p@, i as int),
{
    if i > v.len() || p.len() > v.len() - i {
        return false;
    }
    let mut k: usize = 0;
    while k < p.len()
        invariant
            i + p.len() <= v.len(),
            k <= p.len(),
            forall|m: int| 0 <= m < k ==> v@[i + m] == p@[m],
        decreases p.len() - k,
    {
        if v[i + k] != p[k] {
            assert(v@.subrange(i as int, i + p.len())[k as int] != p@[k as int]);
            return false;
        }
        k = k + 1;
    }
    assert(v@.subrange(i as int, i + p.len()) =~= p@);
    true
}

/// First position at or after `start` where `p` occurs in `v`.
pub fn find_from_exec(v: &Vec<char>, p: &Vec<char>, start: usize) -> (res: Option<usize>)
    ensures
        match res {
            Some(i) => find_from(v@, p@, start as int) == Some(i as int),
            None => find_from(v@, p@, start as int) is None,
        },
{
    if p.len() == 0 {
        if start <= v.len() {
            assert(v@.subrange(start as int, start as int) =~= p@);
            return Some(start);
        }
        return None;
    }
    let mut i = start;
    while i <= v.len() && p.len() <= v.len() - i
        invariant
            start <= i,
            p.len() > 0,
            find_from(v@, p@, start as int) == find_from(v@, p@, i as int),
        decreases v.len() + 1 - i,
    {
        if matches_at_exec(v, p, i) {
            return Some(i);
        }
        i = i + 1;
    }
    None
}

/// First position where `p` occurs in `v`.
pub fn find_exec(v: &Vec<char>, p: &Vec<char>) -> (res: Option<usize>)
    ensures
        match res {
            Some(i) => find(v@, p@) == Some(i as int),
            None => find(v@, p@) is None,
        },
{
    find_from_exec(v, p, 0)
}

/// Whether `p` occurs in `v`.
pub fn contains_exec(v: &Vec<char>, p: &Vec<char>) -> (b: bool)
    ensures
        b == contains(v@, p@),
{
    find_exec(v, p).is_some()
}

/// Whether `v` begins with `p`.
pub fn starts_with_exec(v: &Vec<char>, p: &Vec<char>) -> (b: bool)
    ensures
        b == starts_with(v@, p@),
{
    let r = matches_at_exec(v, p, 0);
    proof {
        if p@.len() <= v@.len() {
            assert(v@.subrange(0, p@.len() as int) =~= v@.take(p@.len() as int));
        }
    }
    r
}

/// Whether `v` ends with `p`.
pub fn ends_with_exec(v: &Vec<char>, p: &Vec<char>) -> (b: bool)
    ensures
        b == ends_with(v@, p@),
{
    if p.len() > v.len() {
        return false;
    }
    let r = matches_at_exec(v, p, v.len() - p.len());
    assert(v@.subrange(v.len() - p.len(), v.len() as int) =~= v@.skip(v.len() - p.len()));
    r
}

/// Whether two character vectors are equal.
pub fn chars_eq(a: &Vec<char>, b: &Vec<char>) -> (r: bool)
    ensures
        r == (a@ == b@),
{
    if a.len() != b.len() {
        return false;
    }
    let r = matches_at_exec(a, b, 0);
    proof {
        if r {
            assert(a@.subrange(0, b@.len() as int) =~= a@);
        } else {
            if a@ == b@ {
                assert(a@.subrange(0, b@.len() as int) =~= a@);
            }
        }
    }
    r
}

/// Whether the characters in `v` spell the string `s`.
pub fn chars_eq_str(v: &Vec<char>, s: &str) -> (r: bool)
    ensures
        r == (v@ == s@),
{
    let w = chars_of(s);
    chars_eq(v, &w)
}

/// Appends the characters of `s` to `v`.
pub fn push_str(v: &mut Vec<char>, s: &str)
    ensures
        final(v)@ == old(v)@ + s@,
{
    let w = chars_of(s);
    push_chars(v, &w);
}

/// Appends the characters of `w` to `v`.
pub fn push_chars(v: &mut Vec<char>, w: &Vec<char>)
    ensures
        final(v)@ == old(v)@ + w@,
{
    let ghost v0 = v@;
    let mut i: usize = 0;
    while i < w.len()
        invariant
            i <= w.len(),
            v@ == v0 + w@.take(i as int),
        decreases w.len() - i,
    {
        v.push(w[i]);
        assert(v0 + w@.take(i + 1) =~= (v0 + w@.take(i as int)).push(w@[i as int]));
        i = i + 1;
    }
    assert(w@.take(w.len() as int) =~= w@);
}


/// Where `find_from` lands: at or after the start, with room for the pattern.
pub proof fn lemma_find_from_bounds(s: Seq<char>, p: Seq<char>, i: int)
    requires
        0 <= i,
    ensures
        find_from(s, p, i) matches Some(k) ==> i <= k && matches_at(s, p, k),
        find_from(s, p, i) is None ==> forall|k: int| i <= k ==> !matches_at(s, p, k),
    decreases s.len() + 1 - i,
{
    if i + p.len() > s.len() {
    } else if matches_at(s, p, i) {
    } else {
        lemma_find_from_bounds(s, p, i + 1);
        assert forall|k: int| i <= k && find_from(s, p, i) is None implies !matches_at(s, p, k) by {
            if k > i {
            }
        }
    }
}

/// The last position at or before `i` where `p` occurs in `s`.
pub open spec fn rfind_upto(s: Seq<char>, p: Seq<char>, i: int) -> Option<int>
    decreases i + 1,
{
    if i < 0 {
        None
    } else if matches_at(s, p, i) {
        Some(i)
    } else {
        rfind_upto(s, p, i - 1)
    }
}

/// The last position where `p` occurs in `s` (`str::rfind`).
pub open spec fn rfind(s: Seq<char>, p: Seq<char>) -> Option<int> {
    rfind_upto(s, p, s.len() - p.len())
}

/// The text after the last occurrence of `p`, or all of `s` when `p` does
/// not occur. For a pattern that cannot overlap itself this is the last
/// piece `str::split(p)` yields.
pub open spec fn after_last(s: Seq<char>, p: Seq<char>) -> Seq<char> {
    match rfind(s, p) {
        Some(k) => s.skip(k + p.len()),
        None => s,
    }
}

/// The text before the first occurrence of `p`, or all of `s` when `p` does
/// not occur: the first piece `str::split(p)` yields.
pub open spec fn before_first(s: Seq<char>, p: Seq<char>) -> Seq<char> {
    match find(s, p) {
        Some(k) => s.take(k),
        None => s,
    }
}

/// Where `rfind_upto` lands: at or before the start, on an occurrence.
pub proof fn lemma_rfind_upto_bounds(s: Seq<char>, p: Seq<char>, i: int)
    ensures
        rfind_upto(s, p, i) matches Some(k) ==> 0 <= k <= i && matches_at(s, p, k),
    decreases i + 1,
{
    if i >= 0 && !matches_at(s, p, i) {
        lemma_rfind_upto_bounds(s, p, i - 1);
    }
}

/// Executable `rfind`.
pub fn rfind_exec(v: &Vec<char>, p: &Vec<char>) -> (res: Option<usize>)
    ensures
        match res {
            Some(i) => rfind(v@, p@) == Some(i as int),
            None => rfind(v@, p@) is None,
        },
{
    if p.len() > v.len() {
        return None;
    }
    let mut i: usize = v.len() - p.len();
    loop
        invariant
            p.len() <= v.len(),
            i <= v.len() - p.len(),
            rfind(v@, p@) == rfind_upto(v@, p@, i as int),
        decreases i,
    {
        if matches_at_exec(v, p, i) {
            return Some(i);
        }
        if i == 0 {
            return None;
        }
        i = i - 1;
    }
}

/// Executable `after_last`.
pub fn after_last_exec(v: &Vec<char>, p: &Vec<char>) -> (res: Vec<char>)
    ensures
        res@ == after_last(v@, p@),
{
    let vl = v.len();
    match rfind_exec(v, p) {
        Some(k) => {
            proof {
                lemma_rfind_upto_bounds(v@, p@, v@.len() - p@.len());
                assert(matches_at(v@, p@, k as int));
                assert(k + p@.len() <= v@.len());
            }
            let r = sub_chars(v, k + p.len(), vl);
            assert(r@ =~= v@.skip(k + p.len()));
            r
        },
        None => {
            let r = sub_chars(v, 0, v.len());
            assert(r@ =~= v@);
            r
        },
    }
}

/// Executable `before_first`.
pub fn before_first_exec(v: &Vec<char>, p: &Vec<char>) -> (res: Vec<char>)
    ensures
        res@ == before_first(v@, p@),
{
    match find_exec(v, p) {
        Some(k) => {
            proof {
                lemma_find_from_bounds(v@, p@, 0);
            }
            sub_chars_take(v, k)
        },
        None => {
            let r = sub_chars(v, 0, v.len());
            assert(r@ =~= v@);
            r
        },
    }
}

/// Drops one `\r` that ends a line.
pub open spec fn strip_cr(l: Seq<char>) -> Seq<char> {
    if l.len() > 0 && l.last() == '\r' {
        l.drop_last()
    } else {
        l
    }
}

/// The lines of `s` from position `start` on, as `str::lines` yields them.
pub open spec fn lines_from(s: Seq<char>, start: int) -> Seq<Seq<char>>
    decreases s.len() - start,
    when 0 <= start
{
    if start >= s.len() {
        seq![]
    } else {
        match find_from(s, seq!['\n'], start) {
            Some(i) => if start <= i < s.len() {
                seq![strip_cr(s.subrange(start, i))] + lines_from(s, i + 1)
            } else {
                seq![]
            },
            None => seq![s.subrange(start, s.len() as int)],
        }
    }
}

/// The lines of `s`: split at `\n`, a `\r` before the `\n` dropped, and no
/// empty last line after a final `\n` (`str::lines`).
pub open spec fn lines(s: Seq<char>) -> Seq<Seq<char>> {
    lines_from(s, 0)
}

/// No character of `x` is a newline.
pub open spec fn no_newline(x: Seq<char>) -> bool {
    forall|i: int| 0 <= i < x.len() ==> x[i] != '\n'
}

/// The pieces of `s` between its newlines (`str::split('\n')`): one more
/// than there are newlines.
pub open spec fn split_nl(s: Seq<char>) -> Seq<Seq<char>>
    decreases s.len(),
{
    match rfind(s, seq!['\n']) {
        Some(k) => if 0 <= k < s.len() {
            split_nl(s.take(k)).push(s.skip(k + 1))
        } else {
            seq![s]
        },
        None => seq![s],
    }
}

/// The first match at or after `i` has no match before it.
pub proof fn lemma_find_from_first(s: Seq<char>, p: Seq<char>, i: int)
    requires
        0 <= i,
    ensures
        find_from(s, p, i) matches Some(k) ==> forall|j: int| i <= j < k ==> !matches_at(s, p, j),
    decreases s.len() + 1 - i,
{
    if i + p.len() <= s.len() && !matches_at(s, p, i) {
        lemma_find_from_first(s, p, i + 1);
    }
}

/// Searching back from `i` finds `k` when `k` matches and nothing between
/// does.
proof fn lemma_rfind_upto_at(s: Seq<char>, p: Seq<char>, i: int, k: int)
    requires
        0 <= k <= i,
        matches_at(s, p, k),
        forall|j: int| k < j <= i ==> !matches_at(s, p, j),
    ensures
        rfind_upto(s, p, i) == Some(k),
    decreases i - k,
{
    if i > k {
        lemma_rfind_upto_at(s, p, i - 1, k);
    }
}

/// Searching back finds nothing where nothing matches.
proof fn lemma_rfind_upto_none(s: Seq<char>, p: Seq<char>, i: int)
    requires
        forall|j: int| 0 <= j <= i ==> !matches_at(s, p, j),
    ensures
        rfind_upto(s, p, i) is None,
    decreases i + 1,
{
    if i >= 0 {
        lemma_rfind_upto_none(s, p, i - 1);
    }
}

/// Pieces without newlines joined with newlines split back into themselves.
pub proof fn lemma_split_join(xs: Seq<Seq<char>>)
    requires
        xs.len() > 0,
        forall|i: int| 0 <= i < xs.len() ==> no_newline(#[trigger] xs[i]),
    ensures
        split_nl(join(xs, "\n"@)) == xs,
    decreases xs.len(),
{
    reveal_strlit("\n");
    let nl = seq!['\n'];
    assert("\n"@ =~= nl);
    let s = join(xs, "\n"@);
    if xs.len() == 1 {
        assert(s == xs[0]);
        assert forall|j: int| 0 <= j <= s.len() - 1 implies !matches_at(s, nl, j) by {
            if matches_at(s, nl, j) {
                assert(s.subrange(j, j + 1)[0] == s[j]);
            }
        }
        lemma_rfind_upto_none(s, nl, s.len() - 1);
        assert(split_nl(s) =~= xs);
    } else {
        let init = xs.drop_last();
        let a = join(init, "\n"@);
        let b = xs.last();
        assert(s == a + nl + b);
        let k = a.len() as int;
        assert(s.subrange(k, k + 1) =~= nl);
        assert forall|j: int| k < j <= s.len() - 1 implies !matches_at(s, nl, j) by {
            if matches_at(s, nl, j) {
                assert(s.subrange(j, j + 1)[0] == s[j]);
                assert(s[j] == b[j - k - 1]);
            }
        }
        lemma_rfind_upto_at(s, nl, s.len() - 1, k);
        assert(s.take(k) =~= a);
        assert(s.skip(k + 1) =~= b);
        assert forall|i: int| 0 <= i < init.len() implies no_newline(#[trigger] init[i]) by {
            assert(init[i] == xs[i]);
        }
        lemma_split_join(init);
        assert(split_nl(s) =~= init.push(b));
    }
}

/// No line of a text holds a newline.
pub proof fn lemma_lines_from_no_newline(s: Seq<char>, start: int)
    requires
        0 <= start,
    ensures
        forall|k: int|
            0 <= k < lines_from(s, start).len() ==> no_newline(#[trigger] lines_from(s, start)[k]),
    decreases s.len() - start,
{
    let nl = seq!['\n'];
    if start < s.len() {
        lemma_find_from_bounds(s, nl, start);
        lemma_find_from_first(s, nl, start);
        match find_from(s, nl, start) {
            Some(i) => {
                if start <= i < s.len() {
                    lemma_lines_from_no_newline(s, i + 1);
                    let piece = s.subrange(start, i);
                    assert forall|j: int| 0 <= j < piece.len() implies piece[j] != '\n' by {
                        assert(!matches_at(s, nl, start + j));
                        assert(s.subrange(start + j, start + j + 1) =~= seq![s[start + j]]);
                    }
                    assert(no_newline(strip_cr(piece)));
                    let ls = lines_from(s, start);
                    assert forall|k: int| 0 <= k < ls.len() implies no_newline(#[trigger] ls[k]) by {
                        if k > 0 {
                            assert(ls[k] == lines_from(s, i + 1)[k - 1]);
                        }
                    }
                }
            },
            None => {
                let piece = s.subrange(start, s.len() as int);
                assert forall|j: int| 0 <= j < piece.len() implies piece[j] != '\n' by {
                    assert(!matches_at(s, nl, start + j));
                    assert(s.subrange(start + j, start + j + 1) =~= seq![s[start + j]]);
                }
            },
        }
    }
}

/// The text of an optional string.
pub open spec fn opt_text(o: Option<String>) -> Option<Seq<char>> {
    match o {
        Some(s) => Some(s@),
        None => None,
    }
}

/// The text of an optional string slice.
pub open spec fn opt_str(o: Option<&str>) -> Option<Seq<char>> {
    match o {
        Some(s) => Some(s@),
        None => None,
    }
}

/// The views of a sequence of character vectors.
pub open spec fn vv(v: Seq<Vec<char>>) -> Seq<Seq<char>> {
    v.map_values(|l: Vec<char>| l@)
}

/// The views of a sequence of strings.
pub open spec fn sv(v: Seq<String>) -> Seq<Seq<char>> {
    v.map_values(|l: String| l@)
}

/// `strip_cr` on a character vector.
pub fn strip_cr_chars(v: Vec<char>) -> (res: Vec<char>)
    ensures
        res@ == strip_cr(v@),
{
    let mut v = v;
    if v.len() > 0 && v[v.len() - 1] == '\r' {
        v.pop();
    }
    v
}

/// The lines of a character vector (`str::lines`).
pub fn lines_of(v: &Vec<char>) -> (res: Vec<Vec<char>>)
    ensures
        vv(res@) == lines(v@),
{
    let mut nl: Vec<char> = Vec::new();
    nl.push('\n');
    assert(nl@ =~= seq!['\n']);
    let mut out: Vec<Vec<char>> = Vec::new();
    let mut start: usize = 0;
    while start < v.len()
        invariant
            start <= v.len(),
            nl@ == seq!['\n'],
            lines(v@) == vv(out@) + lines_from(v@, start as int),
        decreases v.len() - start,
    {
        let r = find_from_exec(v, &nl, start);
        proof {
            lemma_find_from_bounds(v@, seq!['\n'], start as int);
        }
        match r {
            Some(i) => {
                let piece = sub_chars(v, start, i);
                let piece = strip_cr_chars(piece);
                let ghost before = out@;
                out.push(piece);
                assert(vv(out@) =~= vv(before).push(strip_cr(v@.subrange(start as int, i as int))));
                assert(lines_from(v@, start as int) == seq![strip_cr(v@.subrange(start as int, i as int))]
                    + lines_from(v@, i + 1));
                assert(vv(out@) + lines_from(v@, i + 1) =~= vv(before) + lines_from(v@, start as int));
                start = i + 1;
            },
            None => {
                let piece = sub_chars(v, start, v.len());
                let ghost before = out@;
                out.push(piece);
                assert(vv(out@) =~= vv(before).push(v@.subrange(start as int, v.len() as int)));
                assert(lines_from(v@, v.len() as int) =~= Seq::<Seq<char>>::empty());
                assert(vv(out@) + lines_from(v@, v.len() as int) =~= vv(before) + lines_from(v@, start as int));
                start = v.len();
            },
        }
    }
    assert(vv(out@) + lines_from(v@, start as int) =~= vv(out@));
    out
}

/// The decimal digit for `d` (< 10).
pub open spec fn digit(d: nat) -> char {
    if d == 0 { '0' }
    else if d == 1 { '1' }
    else if d == 2 { '2' }
    else if d == 3 { '3' }
    else if d == 4 { '4' }
    else if d == 5 { '5' }
    else if d == 6 { '6' }
    else if d == 7 { '7' }
    else if d == 8 { '8' }
    else { '9' }
}

/// Decimal notation of `n`, without leading zeros.
pub open spec fn dec(n: nat) -> Seq<char>
    decreases n,
{
    if n < 10 {
        seq![digit(n)]
    } else {
        dec(n / 10).push(digit(n % 10))
    }
}

fn digit_char(d: u64) -> (c: char)
    requires
        d < 10,
    ensures
        c == digit(d as nat),
{
    if d == 0 { '0' }
    else if d == 1 { '1' }
    else if d == 2 { '2' }
    else if d == 3 { '3' }
    else if d == 4 { '4' }
    else if d == 5 { '5' }
    else if d == 6 { '6' }
    else if d == 7 { '7' }
    else if d == 8 { '8' }
    else { '9' }
}

/// Decimal notation of `n` (`n.to_string()`).
pub fn dec_chars(n: u64) -> (res: Vec<char>)
    ensures
        res@ == dec(n as nat),
    decreases n,
{
    if n < 10 {
        let mut v: Vec<char> = Vec::new();
        v.push(digit_char(n));
        v
    } else {
        let mut v = dec_chars(n / 10);
        v.push(digit_char(n % 10));
        v
    }
}

/// Decimal notation of a wide `n`.
pub fn dec_chars_wide(n: u128) -> (res: Vec<char>)
    ensures
        res@ == dec(n as nat),
    decreases n,
{
    if n < 10 {
        let mut v: Vec<char> = Vec::new();
        v.push(digit_char(n as u64));
        v
    } else {
        let mut v = dec_chars_wide(n / 10);
        v.push(digit_char((n % 10) as u64));
        v
    }
}

/// Decimal notation of a signed integer: a `-` before the digits of a
/// negative one.
pub open spec fn signed_dec(n: int) -> Seq<char> {
    if n < 0 {
        seq!['-'] + dec((-n) as nat)
    } else {
        dec(n as nat)
    }
}

/// Decimal notation of a signed `n` (`n.to_string()`).
pub fn signed_dec_chars(n: i128) -> (res: Vec<char>)
    ensures
        res@ == signed_dec(n as int),
{
    if n < 0 {
        let m: u128 = if n == i128::MIN {
            170141183460469231731687303715884105728u128
        } else {
            (-n) as u128
        };
        let mut v: Vec<char> = Vec::new();
        v.push('-');
        let d = dec_chars_wide(m);
        push_chars(&mut v, &d);
        v
    } else {
        dec_chars_wide(n as u128)
    }
}

/// `n` copies of `s`, one after another (`str::repeat`).
pub open spec fn repeat(s: Seq<char>, n: nat) -> Seq<char>
    decreases n,
{
    if n == 0 {
        seq![]
    } else {
        repeat(s, (n - 1) as nat) + s
    }
}

/// Appends `n` copies of `s` to `v`.
pub fn push_repeat(v: &mut Vec<char>, s: &str, n: usize)
    ensures
        final(v)@ == old(v)@ + repeat(s@, n as nat),
{
    let ghost v0 = v@;
    let mut i: usize = 0;
    while i < n
        invariant
            i <= n,
            v@ == v0 + repeat(s@, i as nat),
        decreases n - i,
    {
        push_str(v, s);
        assert(v0 + repeat(s@, (i + 1) as nat) =~= v0 + repeat(s@, i as nat) + s@);
        i = i + 1;
    }
}

/// `s` right-aligned in a field of `width` characters (`{:>width$}`).
pub open spec fn pad_left(s: Seq<char>, width: nat) -> Seq<char> {
    if s.len() >= width {
        s
    } else {
        repeat(seq![' '], (width - s.len()) as nat) + s
    }
}

/// Repeating a text without newlines adds none.
pub proof fn lemma_repeat_no_newline(s: Seq<char>, n: nat)
    requires
        no_newline(s),
    ensures
        no_newline(repeat(s, n)),
    decreases n,
{
    if n > 0 {
        lemma_repeat_no_newline(s, (n - 1) as nat);
        let r = repeat(s, (n - 1) as nat);
        assert forall|i: int| 0 <= i < repeat(s, n).len() implies repeat(s, n)[i] != '\n' by {
            if i < r.len() {
                assert(repeat(s, n)[i] == r[i]);
            } else {
                assert(repeat(s, n)[i] == s[i - r.len()]);
            }
        }
    }
}

/// Joining two texts without newlines gives none.
pub proof fn lemma_concat_no_newline(a: Seq<char>, b: Seq<char>)
    requires
        no_newline(a),
        no_newline(b),
    ensures
        no_newline(a + b),
{
    assert forall|i: int| 0 <= i < (a + b).len() implies (a + b)[i] != '\n' by {
        if i < a.len() {
            assert((a + b)[i] == a[i]);
        } else {
            assert((a + b)[i] == b[i - a.len()]);
        }
    }
}

/// A number right-aligned in a field has no newline.
pub proof fn lemma_pad_left_digits(d: Seq<char>, w: nat)
    requires
        all_digits(d),
    ensures
        no_newline(pad_left(d, w)),
{
    assert(no_newline(d));
    if d.len() < w {
        lemma_repeat_no_newline(seq![' '], (w - d.len()) as nat);
        let r = repeat(seq![' '], (w - d.len()) as nat);
        let p = pad_left(d, w);
        assert forall|i: int| 0 <= i < p.len() implies p[i] != '\n' by {
            if i < r.len() {
                assert(p[i] == r[i]);
            } else {
                assert(p[i] == d[i - r.len()]);
            }
        }
    }
}

/// `s` left-aligned in a field of `width` characters (`{:<width$}`).
pub open spec fn pad_right(s: Seq<char>, width: nat) -> Seq<char> {
    if s.len() >= width {
        s
    } else {
        s + repeat(seq![' '], (width - s.len()) as nat)
    }
}

/// Appends `s` right-aligned in a field of `width` characters.
pub fn push_padded_left(v: &mut Vec<char>, s: &Vec<char>, width: usize)
    ensures
        final(v)@ == old(v)@ + pad_left(s@, width as nat),
{
    let ghost v0 = v@;
    if s.len() < width {
        push_repeat(v, " ", width - s.len());
        proof {
            reveal_strlit(" ");
            assert(" "@ =~= seq![' ']);
        }
    }
    push_chars(v, s);
    assert(v@ =~= v0 + pad_left(s@, width as nat));
}

/// Appends `s` left-aligned in a field of `width` characters.
pub fn push_padded_right(v: &mut Vec<char>, s: &Vec<char>, width: usize)
    ensures
        final(v)@ == old(v)@ + pad_right(s@, width as nat),
{
    let ghost v0 = v@;
    push_chars(v, s);
    if s.len() < width {
        push_repeat(v, " ", width - s.len());
        proof {
            reveal_strlit(" ");
            assert(" "@ =~= seq![' ']);
        }
    }
    assert(v@ =~= v0 + pad_right(s@, width as nat));
}

/// The parts joined with `sep` between neighbours (`[T]::join`).
pub open spec fn join(parts: Seq<Seq<char>>, sep: Seq<char>) -> Seq<char>
    decreases parts.len(),
{
    if parts.len() == 0 {
        seq![]
    } else if parts.len() == 1 {
        parts[0]
    } else {
        join(parts.drop_last(), sep) + sep + parts.last()
    }
}

/// Joins character vectors with `sep` between neighbours.
pub fn join_chars(parts: &Vec<Vec<char>>, sep: &str) -> (res: Vec<char>)
    ensures
        res@ == join(vv(parts@), sep@),
{
    let mut res: Vec<char> = Vec::new();
    let mut i: usize = 0;
    while i < parts.len()
        invariant
            i <= parts.len(),
            res@ == join(vv(parts@).take(i as int), sep@),
        decreases parts.len() - i,
    {
        let ghost before = res@;
        if i > 0 {
            push_str(&mut res, sep);
        }
        push_chars(&mut res, &parts[i]);
        assert(vv(parts@).take(i + 1).drop_last() =~= vv(parts@).take(i as int));
        proof {
            if i == 0 {
                assert(vv(parts@).take(1) =~= seq![parts@[0]@]);
            }
        }
        i = i + 1;
    }
    assert(vv(parts@).take(parts.len() as int) =~= vv(parts@));
    res
}

/// Lower-case form of a string by Unicode rules, as `str::to_lowercase` gives it.
pub uninterp spec fn lowercase(s: Seq<char>) -> Seq<char>;

/// An ASCII character in lower case: `A`..`Z` become `a`..`z`, every other
/// character stays.
pub open spec fn ascii_lower(c: char) -> char {
    if 'A' <= c && c <= 'Z' {
        ((c as u32) + 32) as char
    } else {
        c
    }
}

/// Every character of `s` is ASCII.
pub open spec fn all_ascii(s: Seq<char>) -> bool {
    forall|i: int| 0 <= i < s.len() ==> (#[trigger] s[i]) <= '\x7f'
}

/// Lower case as `str::to_lowercase` gives it: by the ASCII rule on an
/// all-ASCII text, by the Unicode mapping (named `lowercase`) otherwise.
pub open spec fn lower_text(s: Seq<char>) -> Seq<char> {
    if all_ascii(s) {
        s.map_values(|c: char| ascii_lower(c))
    } else {
        lowercase(s)
    }
}

/// `str::to_lowercase`. Its result is named by `lowercase`, a function of the
/// text alone. Of the Unicode mapping only the ASCII part is stated, which
/// the Unicode lower-case mapping fixes: on an all-ASCII text each letter
/// `A`..`Z` becomes `a`..`z` and every other character stays.
#[verifier::external_body]
pub(crate) fn to_lowercase(s: &str) -> (res: String)
    ensures
        res@ == lowercase(s@),
        res@ == lower_text(s@),
{
    s.to_lowercase()
}


/// Whether `c` is an ASCII digit.
pub open spec fn is_digit(c: char) -> bool {
    '0' <= c && c <= '9'
}

/// The value of an ASCII digit.
pub open spec fn digit_value(c: char) -> nat {
    (c as u32 - '0' as u32) as nat
}

/// The value of a string of ASCII digits.
pub open spec fn digits_value(s: Seq<char>) -> nat
    decreases s.len(),
{
    if s.len() == 0 {
        0
    } else {
        digits_value(s.drop_last()) * 10 + digit_value(s.last())
    }
}

/// `s` consists of one or more ASCII digits.
pub open spec fn all_digits(s: Seq<char>) -> bool {
    s.len() > 0 && forall|i: int| 0 <= i < s.len() ==> is_digit(#[trigger] s[i])
}

/// `s.parse::<usize>()`: an optional `+`, then ASCII digits, the value not
/// above `usize::MAX`; `None` otherwise.
pub open spec fn parse_usize_spec(s: Seq<char>) -> Option<usize> {
    let body = if s.len() > 0 && s[0] == '+' { s.drop_first() } else { s };
    if all_digits(body) && digits_value(body) <= usize::MAX {
        Some(digits_value(body) as usize)
    } else {
        None
    }
}

proof fn lemma_digits_value_push(s: Seq<char>, c: char)
    ensures
        digits_value(s.push(c)) == digits_value(s) * 10 + digit_value(c),
{
    assert(s.push(c).drop_last() =~= s);
}

proof fn lemma_digits_value_monotone(s: Seq<char>, k: int)
    requires
        0 <= k <= s.len(),
        forall|i: int| 0 <= i < s.len() ==> is_digit(#[trigger] s[i]),
    ensures
        digits_value(s.take(k)) <= digits_value(s),
    decreases s.len() - k,
{
    if k < s.len() {
        lemma_digits_value_monotone(s, k + 1);
        assert(s.take(k + 1).drop_last() =~= s.take(k));
        assert(digits_value(s.take(k + 1)) == digits_value(s.take(k)) * 10 + digit_value(s[k]));
    } else {
        assert(s.take(k) =~= s);
    }
}

/// `str::parse::<usize>` on a character vector.
pub fn parse_usize(v: &Vec<char>) -> (res: Option<usize>)
    ensures
        res == parse_usize_spec(v@),
{
    let start: usize = if v.len() > 0 && v[0] == '+' { 1 } else { 0 };
    let ghost body = if v@.len() > 0 && v@[0] == '+' { v@.drop_first() } else { v@ };
    assert(body =~= v@.skip(start as int));
    if start >= v.len() {
        return None;
    }
    let mut acc: usize = 0;
    let mut i = start;
    while i < v.len()
        invariant
            start <= i <= v.len(),
            start < v.len(),
            body == v@.skip(start as int),
            body == (if v@.len() > 0 && v@[0] == '+' { v@.drop_first() } else { v@ }),
            forall|j: int| start <= j < i ==> is_digit(#[trigger] v@[j]),
            acc as nat == digits_value(v@.subrange(start as int, i as int)),
        decreases v.len() - i,
    {
        let c = v[i];
        if !('0' <= c && c <= '9') {
            assert(body[i - start] == c);
            assert(!is_digit(body[i - start]));
            return None;
        }
        let d = (c as u32 - '0' as u32) as usize;
        proof {
            lemma_digits_value_push(v@.subrange(start as int, i as int), c);
            assert(v@.subrange(start as int, i as int).push(c) =~= v@.subrange(start as int, i + 1));
        }
        if acc > (usize::MAX - d) / 10 {
            proof {
                if all_digits(body) {
                    lemma_digits_value_monotone(body, i + 1 - start);
                    assert(body.take(i + 1 - start) =~= v@.subrange(start as int, i + 1));
                    assert(acc * 10 + d > usize::MAX) by (nonlinear_arith)
                        requires acc > (usize::MAX - d) / 10, d <= 9;
                    assert(digit_value(c) == d);
                    assert(digits_value(v@.subrange(start as int, i + 1)) == acc * 10 + d);
                    assert(digits_value(body) > usize::MAX);
                }
            }
            return None;
        }
        assert(acc * 10 + d <= usize::MAX) by (nonlinear_arith)
            requires acc <= (usize::MAX - d) / 10, d <= 9;
        acc = acc * 10 + d;
        i = i + 1;
    }
    assert(v@.subrange(start as int, v.len() as int) =~= body);
    Some(acc)
}


/// `s` left-padded with `fill` to `width` characters (`{:0>width$}` and the like).
pub open spec fn pad_left_fill(s: Seq<char>, width: nat, fill: char) -> Seq<char> {
    if s.len() >= width {
        s
    } else {
        repeat(seq![fill], (width - s.len()) as nat) + s
    }
}

/// Appends `s` left-padded with `fill` to `width` characters.
pub fn push_padded_fill(v: &mut Vec<char>, s: &Vec<char>, width: usize, fill: char)
    ensures
        final(v)@ == old(v)@ + pad_left_fill(s@, width as nat, fill),
{
    let ghost v0 = v@;
    if s.len() < width {
        let n = width - s.len();
        let mut i: usize = 0;
        while i < n
            invariant
                i <= n,
                v@ == v0 + repeat(seq![fill], i as nat),
            decreases n - i,
        {
            v.push(fill);
            assert(v0 + repeat(seq![fill], (i + 1) as nat) =~= (v0 + repeat(seq![fill], i as nat)).push(fill));
            i = i + 1;
        }
    }
    push_chars(v, s);
    assert(v@ =~= v0 + pad_left_fill(s@, width as nat, fill));
}

/// Index just past the word that starts at `i` (the next white space or the end).
pub open spec fn word_end(s: Seq<char>, i: int) -> int
    decreases s.len() - i,
{
    if i >= s.len() || i < 0 {
        i
    } else if is_ws(s[i]) {
        i
    } else {
        word_end(s, i + 1)
    }
}

/// `word_end` never moves backwards, and passes a non-space start.
pub proof fn lemma_word_end(s: Seq<char>, i: int)
    requires
        0 <= i <= s.len(),
    ensures
        i <= word_end(s, i) <= s.len(),
        i < s.len() && !is_ws(s[i]) ==> word_end(s, i) > i,
        forall|k: int| i <= k < word_end(s, i) ==> !is_ws(#[trigger] s[k]),
        word_end(s, i) < s.len() ==> is_ws(s[word_end(s, i)]),
    decreases s.len() - i,
{
    if i < s.len() && !is_ws(s[i]) {
        lemma_word_end(s, i + 1);
    }
}

/// The white-space separated words of `s` from position `i` on.
pub open spec fn words_from(s: Seq<char>, i: int) -> Seq<Seq<char>>
    decreases s.len() - i,
    when 0 <= i
{
    if i >= s.len() {
        seq![]
    } else if is_ws(s[i]) {
        words_from(s, i + 1)
    } else {
        let j = word_end(s, i);
        proof {
            lemma_word_end(s, i);
        }
        seq![s.subrange(i, j)] + words_from(s, j)
    }
}

/// A run of non-space characters from `i` that ends at `e` (white space
/// or the end of the text) makes `e` the end of the word at `i`.
pub proof fn lemma_word_end_at(s: Seq<char>, i: int, e: int)
    requires
        0 <= i <= e <= s.len(),
        forall|k: int| i <= k < e ==> !is_ws(#[trigger] s[k]),
        e == s.len() || is_ws(s[e]),
    ensures
        word_end(s, i) == e,
    decreases e - i,
{
    if i < e {
        lemma_word_end_at(s, i + 1, e);
    }
}

/// Word ends in `r` are the same behind any prefix `p`.
pub proof fn lemma_word_end_shift(p: Seq<char>, r: Seq<char>, i: int)
    requires
        0 <= i <= r.len(),
    ensures
        word_end(p + r, p.len() + i) == p.len() + word_end(r, i),
    decreases r.len() - i,
{
    if i < r.len() {
        assert((p + r)[p.len() + i] == r[i]);
        if !is_ws(r[i]) {
            lemma_word_end_shift(p, r, i + 1);
        }
    }
}

/// The words of `r` are the same behind any prefix `p`.
pub proof fn lemma_words_from_shift(p: Seq<char>, r: Seq<char>, i: int)
    requires
        0 <= i <= r.len(),
    ensures
        words_from(p + r, p.len() + i) == words_from(r, i),
    decreases r.len() - i,
{
    let s = p + r;
    if i < r.len() {
        assert(s[p.len() + i] == r[i]);
        if is_ws(r[i]) {
            lemma_words_from_shift(p, r, i + 1);
        } else {
            lemma_word_end_shift(p, r, i);
            lemma_word_end(r, i);
            let j = word_end(r, i);
            lemma_words_from_shift(p, r, j);
            assert(s.subrange(p.len() + i, p.len() + j) =~= r.subrange(i, j));
        }
    }
}

/// A text without white space, not empty, is a single word.
pub open spec fn is_word(w: Seq<char>) -> bool {
    w.len() > 0 && forall|k: int| 0 <= k < w.len() ==> !is_ws(#[trigger] w[k])
}

/// A word, a space, then the rest: the words are that word and those of
/// the rest.
pub proof fn lemma_words_cons(w: Seq<char>, r: Seq<char>)
    requires
        is_word(w),
    ensures
        words(w + seq![' '] + r) == seq![w] + words(r),
{
    let p = w + seq![' '];
    let s = p + r;
    assert forall|k: int| 0 <= k < w.len() implies !is_ws(#[trigger] s[k]) by {
        assert(s[k] == w[k]);
    }
    assert(s[w.len() as int] == ' ');
    lemma_word_end_at(s, 0, w.len() as int);
    assert(s.subrange(0, w.len() as int) =~= w);
    lemma_words_from_shift(p, r, 0);
    assert(words_from(s, w.len() as int) == words_from(s, (w.len() + 1) as int));
}

/// A single word's words are itself.
pub proof fn lemma_words_single(w: Seq<char>)
    requires
        is_word(w),
    ensures
        words(w) == seq![w],
{
    lemma_word_end_at(w, 0, w.len() as int);
    assert(w.subrange(0, w.len() as int) =~= w);
    assert(words_from(w, w.len() as int) =~= Seq::<Seq<char>>::empty());
    assert(words_from(w, 0) =~= seq![w] + words_from(w, w.len() as int));
}

/// Decimal notation is a non-empty run of digits.
pub proof fn lemma_dec_digits(n: nat)
    ensures
        all_digits(dec(n)),
    decreases n,
{
    if n >= 10 {
        lemma_dec_digits(n / 10);
    }
}

/// The white-space separated words of `s` (`str::split_whitespace`).
pub open spec fn words(s: Seq<char>) -> Seq<Seq<char>> {
    words_from(s, 0)
}

/// The words of a character vector (`str::split_whitespace`).
pub fn words_of(v: &Vec<char>) -> (res: Vec<Vec<char>>)
    ensures
        vv(res@) == words(v@),
{
    let mut out: Vec<Vec<char>> = Vec::new();
    let mut i: usize = 0;
    while i < v.len()
        invariant
            i <= v.len(),
            words(v@) == vv(out@) + words_from(v@, i as int),
        decreases v.len() - i,
    {
        if is_ws_char(v[i]) {
            i = i + 1;
        } else {
            let mut j = i;
            proof {
                lemma_word_end(v@, i as int);
            }
            while j < v.len() && !is_ws_char(v[j])
                invariant
                    i <= j <= v.len(),
                    word_end(v@, i as int) == word_end(v@, j as int),
                decreases v.len() - j,
            {
                j = j + 1;
            }
            let w = sub_chars(v, i, j);
            let ghost before = out@;
            out.push(w);
            assert(vv(out@) =~= vv(before).push(v@.subrange(i as int, j as int)));
            assert(vv(out@) + words_from(v@, j as int) =~= vv(before) + words_from(v@, i as int));
            i = j;
        }
    }
    assert(vv(out@) + words_from(v@, i as int) =~= vv(out@));
    out
}

/// Length in bytes of the UTF-8 encoding of `s`, as `str::len` reports it.
pub open spec fn byte_len(s: Seq<char>) -> nat {
    (vstd::utf8::encode_utf8(s).len() as usize) as nat
}

/// Length in bytes of the UTF-8 encoding of a character.
pub open spec fn char_width(c: char) -> nat {
    vstd::utf8::encode_scalar(c as u32).len()
}

/// The encoding of a concatenation is the concatenation of the encodings.
pub proof fn lemma_encode_concat(a: Seq<char>, b: Seq<char>)
    ensures
        vstd::utf8::encode_utf8(a + b) == vstd::utf8::encode_utf8(a) + vstd::utf8::encode_utf8(b),
    decreases a.len(),
{
    if a.len() == 0 {
        assert(a + b =~= b);
        assert(vstd::utf8::encode_utf8(a) =~= Seq::<u8>::empty());
        assert(vstd::utf8::encode_utf8(a) + vstd::utf8::encode_utf8(b) =~= vstd::utf8::encode_utf8(b));
    } else {
        lemma_encode_concat(a.drop_first(), b);
        assert((a + b).drop_first() =~= a.drop_first() + b);
        assert((a + b)[0] == a[0]);
        assert(vstd::utf8::encode_scalar(a[0] as u32) + (vstd::utf8::encode_utf8(a.drop_first())
            + vstd::utf8::encode_utf8(b)) =~= (vstd::utf8::encode_scalar(a[0] as u32)
            + vstd::utf8::encode_utf8(a.drop_first())) + vstd::utf8::encode_utf8(b));
    }
}

/// Bytes taken by the first `k` characters of `s`.
pub proof fn lemma_encode_take_push(s: Seq<char>, k: int)
    requires
        0 <= k < s.len(),
    ensures
        vstd::utf8::encode_utf8(s.take(k + 1)).len() == vstd::utf8::encode_utf8(s.take(k)).len()
            + char_width(s[k]),
{
    assert(s.take(k + 1) =~= s.take(k) + seq![s[k]]);
    lemma_encode_concat(s.take(k), seq![s[k]]);
    assert(seq![s[k]].drop_first() =~= Seq::<char>::empty());
    assert(vstd::utf8::encode_utf8(Seq::<char>::empty()) =~= Seq::<u8>::empty());
    assert(vstd::utf8::encode_utf8(seq![s[k]]) =~= vstd::utf8::encode_scalar(s[k] as u32));
}

/// UTF-8 width of a character.
pub fn char_width_exec(c: char) -> (n: usize)
    ensures
        n == char_width(c),
{
    let u = c as u32;
    if u <= 0x7F {
        1
    } else if u <= 0x7FF {
        2
    } else if u <= 0xFFFF {
        3
    } else {
        4
    }
}

/// The number of leading characters of `s` whose encoding ends exactly at
/// byte `n`, when some prefix does.
pub open spec fn chars_for_bytes(s: Seq<char>, n: nat) -> Option<nat> {
    if exists|k: nat| k <= s.len() && vstd::utf8::encode_utf8(s.take(k as int)).len() == n {
        Some(choose|k: nat| k <= s.len() && vstd::utf8::encode_utf8(s.take(k as int)).len() == n)
    } else {
        None
    }
}

/// Prefix encodings grow strictly, so at most one prefix ends at a given byte.
pub proof fn lemma_prefix_bytes_strict(s: Seq<char>, j: int, k: int)
    requires
        0 <= j < k <= s.len(),
    ensures
        vstd::utf8::encode_utf8(s.take(j)).len() < vstd::utf8::encode_utf8(s.take(k)).len(),
    decreases k - j,
{
    lemma_encode_take_push(s, k - 1);
    assert(char_width(s[k - 1]) >= 1);
    if j < k - 1 {
        lemma_prefix_bytes_strict(s, j, k - 1);
    }
}

/// The number of leading characters of `v` that take exactly `n` bytes.
pub fn chars_for_bytes_exec(v: &Vec<char>, n: usize) -> (res: Option<usize>)
    ensures
        match res {
            Some(k) => chars_for_bytes(v@, n as nat) == Some(k as nat) && k <= v.len(),
            None => chars_for_bytes(v@, n as nat) is None,
        },
{
    let mut k: usize = 0;
    let mut bytes: usize = 0;
    assert(vstd::utf8::encode_utf8(v@.take(0)) =~= Seq::<u8>::empty());
    while k < v.len() && bytes < n
        invariant
            k <= v.len(),
            bytes <= n,
            bytes == vstd::utf8::encode_utf8(v@.take(k as int)).len(),
            forall|j: int| 0 <= j < k ==> vstd::utf8::encode_utf8(v@.take(j)).len() < n,
        decreases v.len() - k,
    {
        let w = char_width_exec(v[k]);
        proof {
            lemma_encode_take_push(v@, k as int);
        }
        if w > n - bytes {
            proof {
                assert forall|j: nat| j <= v@.len() implies vstd::utf8::encode_utf8(v@.take(j as int)).len() != n by {
                    if j > k {
                        if j > k + 1 {
                            lemma_prefix_bytes_strict(v@, k + 1, j as int);
                        }
                    }
                }
            }
            return None;
        }
        bytes = bytes + w;
        k = k + 1;
    }
    if bytes == n {
        proof {
            assert forall|j: nat| j <= v@.len() && vstd::utf8::encode_utf8(v@.take(j as int)).len() == n implies j == k by {
                if (j as int) < k {
                } else if (j as int) > k {
                    lemma_prefix_bytes_strict(v@, k as int, j as int);
                }
            }
        }
        Some(k)
    } else {
        proof {
            assert forall|j: nat| j <= v@.len() implies vstd::utf8::encode_utf8(v@.take(j as int)).len() != n by {
                if (j as int) < k {
                } else if (j as int) > k {
                    lemma_prefix_bytes_strict(v@, k as int, j as int);
                }
            }
        }
        None
    }
}

} // verus!
