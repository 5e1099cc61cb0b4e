//! Text rendering of read results.

use vstd::prelude::*;
use crate::read::around::{format_around_spec, format_lines_around, numbered_view};
use crate::read::diff::{format_diff, format_diff_spec};
use crate::read::types::{FileOutline, ItemView, OutlineItem, ReadOutput, icon_spec, items_view};
use crate::text::{
    dec, dec_chars, join, join_chars, lemma_concat_no_newline, lemma_dec_digits, lemma_repeat_no_newline,
    lemma_split_join, no_newline, push_chars, push_repeat, push_str, repeat, chars_of, split_nl,
    string_from_chars, vv,
};

verus! {

/// One outline line: indent, icon, text, `:` and the line number.
pub open spec fn outline_line(it: ItemView) -> Seq<char> {
    repeat("  "@, it.level) + icon_spec(it.kind) + " "@ + it.text + ":"@ + dec(it.line)
}

/// One interface line: indent, icon, text, ` :L` and the line number.
pub open spec fn interface_line(it: ItemView) -> Seq<char> {
    repeat("  "@, it.level) + icon_spec(it.kind) + " "@ + it.text + " :L"@ + dec(it.line)
}

/// The outline lines of the items.
pub open spec fn outline_lines(items: Seq<ItemView>) -> Seq<Seq<char>> {
    items.map_values(|it: ItemView| outline_line(it))
}

/// The interface lines of the items.
pub open spec fn interface_lines(items: Seq<ItemView>) -> Seq<Seq<char>> {
    items.map_values(|it: ItemView| interface_line(it))
}

/// The item lines in either style.
pub open spec fn item_lines(items: Seq<ItemView>, interface: bool) -> Seq<Seq<char>> {
    if interface {
        interface_lines(items)
    } else {
        outline_lines(items)
    }
}

/// The rendered outline.
pub open spec fn format_outline_spec(items: Seq<ItemView>) -> Seq<char> {
    if items.len() == 0 {
        "No outline items found"@
    } else {
        join(outline_lines(items), "\n"@)
    }
}

/// The rendered interface.
pub open spec fn format_interface_spec(items: Seq<ItemView>) -> Seq<char> {
    if items.len() == 0 {
        "No public interface items found"@
    } else {
        join(interface_lines(items), "\n"@)
    }
}

/// The rendering of each kind of read result.
pub open spec fn format_spec(output: ReadOutput) -> Seq<char> {
    match output {
        ReadOutput::Full(content) => content@,
        ReadOutput::Outline(outline) => format_outline_spec(outline@),
        ReadOutput::Interface(items) => format_interface_spec(items_view(items@)),
        ReadOutput::Around { lines, center, total_lines } => format_around_spec(
            numbered_view(lines@),
            center as nat,
            total_lines as nat,
        ),
        ReadOutput::Diff(diff) => format_diff_spec(diff@),
    }
}

fn item_line(it: &OutlineItem, interface: bool) -> (res: Vec<char>)
    ensures
        res@ == (if interface { interface_line(it@) } else { outline_line(it@) }),
{
    let mut l: Vec<char> = Vec::new();
    push_repeat(&mut l, "  ", it.level);
    push_str(&mut l, it.kind.icon());
    push_str(&mut l, " ");
    let t = chars_of(it.text.as_str());
    push_chars(&mut l, &t);
    if interface {
        push_str(&mut l, " :L");
    } else {
        push_str(&mut l, ":");
    }
    let d = dec_chars(it.line as u64);
    push_chars(&mut l, &d);
    l
}

fn format_items(items: &Vec<OutlineItem>, interface: bool) -> (res: Vec<char>)
    ensures
        res@ == join(item_lines(items_view(items@), interface), "\n"@),
{
    let mut out: Vec<Vec<char>> = Vec::new();
    let mut i: usize = 0;
    while i < items.len()
        invariant
            i <= items.len(),
            vv(out@) == item_lines(items_view(items@).take(i as int), interface),
        decreases items.len() - i,
    {
        let l = item_line(&items[i], interface);
        let ghost before = out@;
        out.push(l);
        assert(vv(out@) =~= item_lines(items_view(items@).take(i + 1), interface)) by {
            assert(vv(out@) =~= vv(before).push(l@));
        }
        i = i + 1;
    }
    assert(items_view(items@).take(items.len() as int) =~= items_view(items@));
    join_chars(&out, "\n")
}

/// Format outline for display
pub fn format_outline(outline: &FileOutline) -> (res: String)
    ensures
        res@ == format_outline_spec(outline@),
{
    if outline.is_empty() {
        return "No outline items found".to_string();
    }
    let v = format_items(&outline.items, false);
    string_from_chars(&v)
}

/// Format interface for display
pub fn format_interface(items: &Vec<OutlineItem>) -> (res: String)
    ensures
        res@ == format_interface_spec(items_view(items@)),
{
    if items.len() == 0 {
        return "No public interface items found".to_string();
    }
    let v = format_items(items, true);
    string_from_chars(&v)
}

/// Format ReadOutput for CLI display
pub fn format(output: &ReadOutput) -> (res: String)
    ensures
        res@ == format_spec(*output),
{
    match output {
        ReadOutput::Full(content) => content.clone(),
        ReadOutput::Outline(outline) => format_outline(outline),
        ReadOutput::Interface(items) => format_interface(items),
        ReadOutput::Around { lines, center, total_lines } => format_lines_around(
            lines.as_slice(),
            *center,
            *total_lines,
        ),
        ReadOutput::Diff(diff) => format_diff(diff.as_str()),
    }
}

/// An item's line, in either style, holds no newline when its text holds
/// none.
proof fn lemma_item_line_no_newline(it: ItemView, sep: Seq<char>)
    requires
        no_newline(it.text),
        no_newline(sep),
    ensures
        no_newline(repeat("  "@, it.level) + icon_spec(it.kind) + " "@ + it.text + sep + dec(it.line)),
{
    reveal_strlit("  ");
    reveal_strlit(" ");
    reveal_strlit("fn");
    reveal_strlit("struct");
    reveal_strlit("enum");
    reveal_strlit("trait");
    reveal_strlit("impl");
    reveal_strlit("class");
    reveal_strlit("mod");
    reveal_strlit("const");
    reveal_strlit("type");
    reveal_strlit("#");
    reveal_strlit("##");
    reveal_strlit("###");
    reveal_strlit("####");
    reveal_strlit("");
    lemma_repeat_no_newline("  "@, it.level);
    let ic = icon_spec(it.kind);
    assert(no_newline(ic));
    lemma_concat_no_newline(repeat("  "@, it.level), ic);
    lemma_concat_no_newline(repeat("  "@, it.level) + ic, " "@);
    lemma_concat_no_newline(repeat("  "@, it.level) + ic + " "@, it.text);
    lemma_concat_no_newline(repeat("  "@, it.level) + ic + " "@ + it.text, sep);
    lemma_dec_digits(it.line);
    assert(no_newline(dec(it.line)));
    lemma_concat_no_newline(repeat("  "@, it.level) + ic + " "@ + it.text + sep, dec(it.line));
}

/// A rendered outline keeps one line per item: split at its newlines it has
/// one piece per item, in order, and piece `j` is the item's indent (two
/// spaces per level), its kind's label, a space, its text, `:` and its line
/// number.
pub proof fn lemma_format_outline_lines(items: Seq<ItemView>)
    requires
        items.len() > 0,
        forall|j: int| 0 <= j < items.len() ==> no_newline((#[trigger] items[j]).text),
    ensures
        split_nl(format_outline_spec(items)).len() == items.len(),
        forall|j: int|
            0 <= j < items.len() ==> split_nl(format_outline_spec(items))[j] == repeat("  "@, (#[trigger] items[j]).level)
                + icon_spec(items[j].kind) + " "@ + items[j].text + ":"@ + dec(items[j].line),
{
    reveal_strlit(":");
    let parts = outline_lines(items);
    assert forall|k: int| 0 <= k < parts.len() implies no_newline(#[trigger] parts[k]) by {
        lemma_item_line_no_newline(items[k], ":"@);
    }
    lemma_split_join(parts);
}

/// A rendered interface keeps one line per item: split at its newlines it
/// has one piece per item, in order, and piece `j` is the item's indent,
/// its kind's label, a space, its text, ` :L` and its line number.
pub proof fn lemma_format_interface_lines(items: Seq<ItemView>)
    requires
        items.len() > 0,
        forall|j: int| 0 <= j < items.len() ==> no_newline((#[trigger] items[j]).text),
    ensures
        split_nl(format_interface_spec(items)).len() == items.len(),
        forall|j: int|
            0 <= j < items.len() ==> split_nl(format_interface_spec(items))[j] == repeat("  "@, (#[trigger] items[j]).level)
                + icon_spec(items[j].kind) + " "@ + items[j].text + " :L"@ + dec(items[j].line),
{
    reveal_strlit(" :L");
    let parts = interface_lines(items);
    assert forall|k: int| 0 <= k < parts.len() implies no_newline(#[trigger] parts[k]) by {
        lemma_item_line_no_newline(items[k], " :L"@);
    }
    lemma_split_join(parts);
}

} // verus!
