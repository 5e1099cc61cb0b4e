//! Line-by-line recognition of declarations: an ordered list of rules, each
//! a regular expression with the kind of item it finds.

use vstd::prelude::*;
use crate::matcher::{regex_captures, regex_captures_spec};
use crate::read::types::{ItemKind, ItemView, OutlineItem, items_view};
use crate::text::{byte_len, chars_of, ends_with, starts_with, string_from_chars, trim, trim_chars, vv};

verus! {

/// How the matched text is cleaned before it becomes the item's text.
#[derive(Clone, Copy)]
pub enum Strip {
    /// Trim white space only.
    Trim,
    /// Drop every trailing copy of the character, then trim.
    TrimEndChar(char),
    /// Drop every trailing `=>`, then trim.
    TrimEndArrow,
}

/// One recognition rule.
#[derive(Clone, Copy)]
pub struct Rule {
    /// Regular expression tried on each line.
    pub pattern: &'static str,
    /// Kind of the item a match produces.
    pub kind: ItemKind,
    /// How the whole match is cleaned into the item's text.
    pub strip: Strip,
    /// Indent width (in bytes of group 1) of one level; 0 puts every item at level 0.
    pub unit: usize,
    /// A match whose group 1 is shorter (in bytes) than this yields no item.
    pub min_indent: usize,
    /// A match whose group 1 is longer (in bytes) than this yields no item.
    pub max_indent: usize,
    /// Group holding a name that must not be private (`_x` but not `__x`); 0 for none.
    pub name_group: usize,
}

/// The text of group `i`, empty when the group did not take part.
pub open spec fn group(g: Seq<Option<Seq<char>>>, i: int) -> Seq<char> {
    if 0 <= i < g.len() {
        match g[i] {
            Some(s) => s,
            None => seq![],
        }
    } else {
        seq![]
    }
}

/// `s` without every trailing copy of `p` (`str::trim_end_matches`).
pub open spec fn trim_end_matches(s: Seq<char>, p: Seq<char>) -> Seq<char>
    decreases s.len(),
{
    if p.len() > 0 && ends_with(s, p) {
        trim_end_matches(s.take(s.len() - p.len()), p)
    } else {
        s
    }
}

/// The cleaned text of a match.
pub open spec fn strip_text(strip: Strip, s: Seq<char>) -> Seq<char> {
    match strip {
        Strip::Trim => trim(s),
        Strip::TrimEndChar(c) => trim(trim_end_matches(s, seq![c])),
        Strip::TrimEndArrow => trim(trim_end_matches(s, seq!['=', '>'])),
    }
}

/// A name is private when it starts with one underscore but not two.
pub open spec fn is_private_name(s: Seq<char>) -> bool {
    starts_with(s, seq!['_']) && !starts_with(s, seq!['_', '_'])
}

/// The item a rule's match yields on line `num`, or `None` when the rule
/// skips it.
pub open spec fn rule_item(r: Rule, g: Seq<Option<Seq<char>>>, num: nat) -> Option<ItemView> {
    let indent = byte_len(group(g, 1));
    if indent < r.min_indent || indent > r.max_indent || (r.name_group > 0 && is_private_name(
        group(g, r.name_group as int),
    )) {
        None
    } else {
        Some(
            ItemView {
                line: num,
                text: strip_text(r.strip, group(g, 0)),
                level: if r.unit == 0 {
                    0
                } else {
                    indent / (r.unit as nat)
                },
                kind: r.kind,
            },
        )
    }
}

/// The first rule whose pattern matches the line decides: `None` when no
/// rule matches, otherwise what that rule yields.
pub open spec fn first_rule(rules: Seq<Rule>, line: Seq<char>, num: nat) -> Option<Option<ItemView>>
    decreases rules.len(),
{
    if rules.len() == 0 {
        None
    } else {
        match regex_captures_spec(rules[0].pattern@, line) {
            Some(g) => Some(rule_item(rules[0], g, num)),
            None => first_rule(rules.drop_first(), line, num),
        }
    }
}

/// The items the rules find on one line (at most one).
pub open spec fn line_items(rules: Seq<Rule>, line: Seq<char>, num: nat) -> Seq<ItemView> {
    match first_rule(rules, line, num) {
        Some(Some(item)) => seq![item],
        _ => seq![],
    }
}

/// The items the rules find on the lines, in line order; line numbers start at 1.
pub open spec fn items_for_lines(rules: Seq<Rule>, ls: Seq<Seq<char>>) -> Seq<ItemView>
    decreases ls.len(),
{
    if ls.len() == 0 {
        seq![]
    } else {
        items_for_lines(rules, ls.drop_last()) + line_items(rules, ls.last(), ls.len())
    }
}

/// When the rules before `i` do not match a line and rule `i` does, rule
/// `i` decides what the line yields.
pub proof fn lemma_first_rule_at(rules: Seq<Rule>, line: Seq<char>, num: nat, i: int, g: Seq<Option<Seq<char>>>)
    requires
        0 <= i < rules.len(),
        forall|j: int| 0 <= j < i ==> regex_captures_spec((#[trigger] rules[j]).pattern@, line) is None,
        regex_captures_spec(rules[i].pattern@, line) == Some(g),
    ensures
        first_rule(rules, line, num) == Some(rule_item(rules[i], g, num)),
    decreases i,
{
    if i > 0 {
        let rest = rules.drop_first();
        assert(regex_captures_spec(rules[0].pattern@, line) is None);
        assert forall|j: int| 0 <= j < i - 1 implies regex_captures_spec((#[trigger] rest[j]).pattern@, line)
            is None by {
            assert(rest[j] == rules[j + 1]);
        }
        assert(rest[i - 1] == rules[i]);
        lemma_first_rule_at(rest, line, num, i - 1, g);
    }
}

/// Every item that a line yields is among the items of the lines.
pub proof fn lemma_items_for_lines_has(rules: Seq<Rule>, ls: Seq<Seq<char>>, k: int, it: ItemView)
    requires
        0 <= k < ls.len(),
        line_items(rules, ls[k], (k + 1) as nat) == seq![it],
    ensures
        items_for_lines(rules, ls).contains(it),
    decreases ls.len(),
{
    let init = ls.drop_last();
    let prefix = items_for_lines(rules, init);
    if k == ls.len() - 1 {
        assert(items_for_lines(rules, ls) == prefix + seq![it]);
        assert(items_for_lines(rules, ls)[prefix.len() as int] == it);
    } else {
        assert(init[k] == ls[k]);
        lemma_items_for_lines_has(rules, init, k, it);
        let j = choose|j: int| 0 <= j < prefix.len() && prefix[j] == it;
        assert(items_for_lines(rules, ls)[j] == it);
    }
}

/// No item of `items` is on line `n`.
pub open spec fn no_item_on(items: Seq<ItemView>, n: nat) -> bool {
    forall|j: int| 0 <= j < items.len() ==> (#[trigger] items[j]).line != n
}

/// What the rules yield for line `num` is an item of line `num`.
pub proof fn lemma_first_rule_line(rules: Seq<Rule>, line: Seq<char>, num: nat)
    ensures
        first_rule(rules, line, num) matches Some(Some(it)) ==> it.line == num,
        forall|j: int| 0 <= j < line_items(rules, line, num).len() ==> (#[trigger] line_items(rules, line, num)[j]).line == num,
    decreases rules.len(),
{
    if rules.len() > 0 {
        lemma_first_rule_line(rules.drop_first(), line, num);
    }
}

/// The items of the lines carry line numbers from 1 to the number of lines.
pub proof fn lemma_items_for_lines_lines(rules: Seq<Rule>, ls: Seq<Seq<char>>)
    ensures
        forall|j: int|
            0 <= j < items_for_lines(rules, ls).len() ==> 1 <= (#[trigger] items_for_lines(rules, ls)[j]).line
                <= ls.len(),
    decreases ls.len(),
{
    if ls.len() > 0 {
        let init = ls.drop_last();
        lemma_items_for_lines_lines(rules, init);
        let prefix = items_for_lines(rules, init);
        let all = items_for_lines(rules, ls);
        assert forall|j: int| 0 <= j < all.len() implies 1 <= (#[trigger] all[j]).line <= ls.len() by {
            if j >= prefix.len() {
                lemma_first_rule_line(rules, ls.last(), ls.len());
                assert(all[j] == line_items(rules, ls.last(), ls.len())[j - prefix.len()]);
            } else {
                assert(all[j] == prefix[j]);
            }
        }
    }
}

/// A line that yields no item has no item among the items of the lines.
pub proof fn lemma_items_for_lines_lacks(rules: Seq<Rule>, ls: Seq<Seq<char>>, k: int)
    requires
        0 <= k < ls.len(),
        line_items(rules, ls[k], (k + 1) as nat) == Seq::<ItemView>::empty(),
    ensures
        forall|j: int|
            0 <= j < items_for_lines(rules, ls).len() ==> (#[trigger] items_for_lines(rules, ls)[j]).line
                != k + 1,
    decreases ls.len(),
{
    let init = ls.drop_last();
    let prefix = items_for_lines(rules, init);
    let all = items_for_lines(rules, ls);
    if k == ls.len() - 1 {
        lemma_items_for_lines_lines(rules, init);
        assert(all =~= prefix);
        assert forall|j: int| 0 <= j < all.len() implies (#[trigger] all[j]).line != k + 1 by {
            assert(all[j] == prefix[j]);
        }
    } else {
        assert(init[k] == ls[k]);
        lemma_items_for_lines_lacks(rules, init, k);
        lemma_first_rule_line(rules, ls.last(), ls.len());
        assert forall|j: int| 0 <= j < all.len() implies (#[trigger] all[j]).line != k + 1 by {
            if j >= prefix.len() {
                lemma_first_rule_line(rules, ls.last(), ls.len());
                assert(all[j] == line_items(rules, ls.last(), ls.len())[j - prefix.len()]);
            } else {
                assert(all[j] == prefix[j]);
            }
        }
    }
}

/// No rule matching a line means the rules yield nothing for it.
pub proof fn lemma_first_rule_none(rules: Seq<Rule>, line: Seq<char>, num: nat)
    requires
        forall|j: int| 0 <= j < rules.len() ==> regex_captures_spec((#[trigger] rules[j]).pattern@, line) is None,
    ensures
        first_rule(rules, line, num) is None,
    decreases rules.len(),
{
    if rules.len() > 0 {
        let rest = rules.drop_first();
        assert(regex_captures_spec(rules[0].pattern@, line) is None);
        assert forall|j: int| 0 <= j < rest.len() implies regex_captures_spec((#[trigger] rest[j]).pattern@, line)
            is None by {
            assert(rest[j] == rules[j + 1]);
        }
        lemma_first_rule_none(rest, line, num);
    }
}

/// Whether `v[..end]` ends with `p`.
fn ends_with_at(v: &Vec<char>, p: &Vec<char>, end: usize) -> (b: bool)
    requires
        end <= v.len(),
    ensures
        b == ends_with(v@.take(end as int), p@),
{
    if p.len() > end {
        return false;
    }
    let r = crate::text::matches_at_exec(v, p, end - p.len());
    assert(v@.subrange(end - p.len(), end as int) =~= v@.take(end as int).skip(end - p.len()));
    r
}

/// Drops every trailing copy of `p` from `v`.
pub fn trim_end_matches_chars(v: &Vec<char>, p: &Vec<char>) -> (res: Vec<char>)
    ensures
        res@ == trim_end_matches(v@, p@),
{
    let mut end = v.len();
    assert(v@.take(end as int) =~= v@);
    while p.len() > 0 && ends_with_at(v, p, end)
        invariant
            end <= v.len(),
            trim_end_matches(v@, p@) == trim_end_matches(v@.take(end as int), p@),
        decreases end,
    {
        assert(v@.take(end as int).take(end - p.len()) =~= v@.take(end - p.len()));
        end = end - p.len();
    }
    crate::text::sub_chars_take(v, end)
}

/// Cleans a matched text as the rule says.
pub fn strip_text_exec(strip: Strip, s: &Vec<char>) -> (res: Vec<char>)
    ensures
        res@ == strip_text(strip, s@),
{
    match strip {
        Strip::Trim => trim_chars(s),
        Strip::TrimEndChar(c) => {
            let mut p: Vec<char> = Vec::new();
            p.push(c);
            assert(p@ =~= seq![c]);
            let t = trim_end_matches_chars(s, &p);
            trim_chars(&t)
        },
        Strip::TrimEndArrow => {
            let mut p: Vec<char> = Vec::new();
            p.push('=');
            p.push('>');
            assert(p@ =~= seq!['=', '>']);
            let t = trim_end_matches_chars(s, &p);
            trim_chars(&t)
        },
    }
}

/// The text of group `i` (empty when absent).
pub fn group_exec(g: &Vec<Option<String>>, i: usize) -> (res: Vec<char>)
    ensures
        res@ == group(crate::matcher::groups_view(g@), i as int),
{
    if i < g.len() {
        match &g[i] {
            Some(s) => chars_of(s.as_str()),
            None => Vec::new(),
        }
    } else {
        Vec::new()
    }
}

/// Byte length of group `i` (0 when absent).
pub fn group_byte_len(g: &Vec<Option<String>>, i: usize) -> (res: usize)
    ensures
        res == byte_len(group(crate::matcher::groups_view(g@), i as int)),
{
    if i < g.len() {
        match &g[i] {
            Some(s) => s.as_str().len(),
            None => {
                assert(vstd::utf8::encode_utf8(Seq::<char>::empty()) =~= Seq::<u8>::empty()) by {
                    reveal_with_fuel(vstd::utf8::encode_utf8, 2);
                }
                0
            },
        }
    } else {
        assert(vstd::utf8::encode_utf8(Seq::<char>::empty()) =~= Seq::<u8>::empty()) by {
            reveal_with_fuel(vstd::utf8::encode_utf8, 2);
        }
        0
    }
}

/// Whether a name is private (`_x` but not `__x`).
pub fn is_private_name_exec(s: &Vec<char>) -> (b: bool)
    ensures
        b == is_private_name(s@),
{
    let one = s.len() >= 1 && s[0] == '_';
    let two = s.len() >= 2 && s[0] == '_' && s[1] == '_';
    proof {
        if s@.len() >= 1 {
            assert(starts_with(s@, seq!['_']) == (s@[0] == '_')) by {
                assert(s@.take(1) =~= seq![s@[0]]);
                if s@[0] == '_' {
                    assert(s@.take(1) =~= seq!['_']);
                }
                if starts_with(s@, seq!['_']) {
                    assert(s@.take(1)[0] == seq!['_'][0]);
                }
            }
        }
        if s@.len() >= 2 {
            assert(starts_with(s@, seq!['_', '_']) == (s@[0] == '_' && s@[1] == '_')) by {
                assert(s@.take(2) =~= seq![s@[0], s@[1]]);
                if s@[0] == '_' && s@[1] == '_' {
                    assert(s@.take(2) =~= seq!['_', '_']);
                }
                if starts_with(s@, seq!['_', '_']) {
                    assert(s@.take(2)[0] == seq!['_', '_'][0]);
                    assert(s@.take(2)[1] == seq!['_', '_'][1]);
                }
            }
        }
    }
    one && !two
}

/// What one rule yields for a match on line `num`.
pub fn rule_item_exec(r: &Rule, g: &Vec<Option<String>>, num: usize) -> (res: Option<OutlineItem>)
    requires
        g@.len() > 0,
    ensures
        match res {
            Some(it) => rule_item(*r, crate::matcher::groups_view(g@), num as nat) == Some(it@),
            None => rule_item(*r, crate::matcher::groups_view(g@), num as nat) is None,
        },
{
    let indent = group_byte_len(g, 1);
    if indent < r.min_indent || indent > r.max_indent {
        return None;
    }
    if r.name_group > 0 {
        let name = group_exec(g, r.name_group);
        if is_private_name_exec(&name) {
            return None;
        }
    }
    let whole = group_exec(g, 0);
    let text = strip_text_exec(r.strip, &whole);
    let level = if r.unit == 0 { 0 } else { indent / r.unit };
    Some(OutlineItem { line: num, text: string_from_chars(&text), level, kind: r.kind })
}

/// The decision of the first matching rule on one line.
pub fn first_rule_exec(rules: &Vec<Rule>, line: &str, num: usize) -> (res: Option<Option<OutlineItem>>)
    ensures
        match res {
            None => first_rule(rules@, line@, num as nat) is None,
            Some(None) => first_rule(rules@, line@, num as nat) == Some(None::<ItemView>),
            Some(Some(it)) => first_rule(rules@, line@, num as nat) == Some(Some(it@)),
        },
{
    let mut k: usize = 0;
    assert(rules@.skip(0) =~= rules@);
    while k < rules.len()
        invariant
            k <= rules.len(),
            first_rule(rules@, line@, num as nat) == first_rule(rules@.skip(k as int), line@, num as nat),
        decreases rules.len() - k,
    {
        let caps = regex_captures(rules[k].pattern, line);
        assert(rules@.skip(k as int)[0] == rules@[k as int]);
        match caps {
            Some(g) => {
                return Some(rule_item_exec(&rules[k], &g, num));
            },
            None => {
                assert(rules@.skip(k as int).drop_first() =~= rules@.skip(k + 1));
            },
        }
        k = k + 1;
    }
    None
}

/// Applies the rules to every line of `ls` (numbered from 1).
pub fn items_for_lines_exec(rules: &Vec<Rule>, ls: &Vec<Vec<char>>) -> (res: Vec<OutlineItem>)
    ensures
        items_view(res@) == items_for_lines(rules@, vv(ls@)),
{
    let mut res: Vec<OutlineItem> = Vec::new();
    let mut i: usize = 0;
    while i < ls.len()
        invariant
            i <= ls.len(),
            items_view(res@) == items_for_lines(rules@, vv(ls@).take(i as int)),
        decreases ls.len() - i,
    {
        let line = string_from_chars(&ls[i]);
        let d = first_rule_exec(rules, line.as_str(), i + 1);
        let ghost before = res@;
        assert(vv(ls@).take(i + 1).drop_last() =~= vv(ls@).take(i as int));
        assert(vv(ls@).take(i + 1).last() == ls@[i as int]@);
        match d {
            Some(Some(it)) => {
                res.push(it);
                assert(items_view(res@) =~= items_view(before).push(it@));
            },
            _ => {
                assert(items_view(res@) =~= items_view(before) + Seq::<ItemView>::empty());
            },
        }
        i = i + 1;
    }
    assert(vv(ls@).take(ls.len() as int) =~= vv(ls@));
    res
}

} // verus!
