//! Public interfaces: the exported declarations of a source file, by
//! language.

use vstd::prelude::*;
use crate::matcher::{path_extension, path_extension_spec, regex_captures, regex_captures_spec};
use crate::read::outline::{PY_CLASS_RE, PY_DEF_RE, RUBY_CLASS_RE, RUBY_DEF_RE, RUBY_MODULE_RE};
use crate::read::rules::{
    first_rule, is_private_name, lemma_first_rule_at, lemma_first_rule_line, lemma_first_rule_none,
    lemma_items_for_lines_has, lemma_items_for_lines_lacks, no_item_on, rule_item, trim_end_matches, group,
    Rule, Strip, first_rule_exec, items_for_lines, items_for_lines_exec, line_items,
};
use crate::read::types::{ItemKind, ItemView, OutlineItem, items_view};
use crate::text::{trim, byte_len, chars_eq_str, chars_of, lines, lines_of, string_from_chars, vv};

verus! {

pub const RUST_PUB_FN_RE: &'static str = r"^(\s*)pub\s+(async\s+)?fn\s+(\w+)\s*(<[^>]+>)?\s*\([^)]*\)(\s*->\s*[^{]+)?";
pub const RUST_PUB_STRUCT_RE: &'static str = r"^(\s*)pub\s+struct\s+(\w+)(<[^>]+>)?";
pub const RUST_PUB_ENUM_RE: &'static str = r"^(\s*)pub\s+enum\s+(\w+)(<[^>]+>)?";
pub const RUST_PUB_TRAIT_RE: &'static str = r"^(\s*)pub\s+trait\s+(\w+)(<[^>]+>)?";
pub const RUST_PUB_CONST_RE: &'static str = r"^(\s*)pub\s+const\s+(\w+)";
pub const RUST_PUB_TYPE_RE: &'static str = r"^(\s*)pub\s+type\s+(\w+)";
pub const RUST_PUB_MOD_RE: &'static str = r"^(\s*)pub\s+mod\s+(\w+)";
pub const JS_EXPORT_FN_RE: &'static str = r"^(\s*)export\s+(async\s+)?function\s+(\w+)\s*(<[^>]+>)?\s*\([^)]*\)";
pub const JS_EXPORT_CONST_RE: &'static str = r"^(\s*)export\s+(const|let|var)\s+(\w+)\s*=\s*(async\s+)?\([^)]*\)\s*=>";
pub const JS_EXPORT_CLASS_RE: &'static str = r"^(\s*)export\s+class\s+(\w+)(\s+extends\s+\w+)?";
pub const JS_EXPORT_DEFAULT_RE: &'static str = r"^(\s*)export\s+default\s+(class|function)?\s*(\w+)?";
pub const RUBY_PRIVATE_RE: &'static str = r"^\s*private\s*$";
pub const RUBY_PUBLIC_RE: &'static str = r"^\s*public\s*$";
pub const GO_PUB_FUNC_RE: &'static str = r"^func\s+(\([^)]+\)\s+)?([A-Z]\w*)\s*\([^)]*\)(\s*\([^)]*\)|\s*\w+)?";
pub const GO_PUB_STRUCT_RE: &'static str = r"^type\s+([A-Z]\w*)\s+struct";
pub const GO_PUB_INTERFACE_RE: &'static str = r"^type\s+([A-Z]\w*)\s+interface";

/// A rule with explicit level unit, indent bounds and private-name group.
pub open spec fn rule(
    pattern: &'static str,
    kind: ItemKind,
    strip: Strip,
    unit: usize,
    max_indent: usize,
    name_group: usize,
) -> Rule {
    Rule { pattern, kind, strip, unit, min_indent: 0, max_indent, name_group }
}

fn rule_exec(
    pattern: &'static str,
    kind: ItemKind,
    strip: Strip,
    unit: usize,
    max_indent: usize,
    name_group: usize,
) -> (r: Rule)
    ensures
        r == rule(pattern, kind, strip, unit, max_indent, name_group),
{
    Rule { pattern, kind, strip, unit, min_indent: 0, max_indent, name_group }
}

/// Rust: `pub` functions, structs, enums, traits, constants, type aliases, modules.
pub open spec fn rust_interface_rules() -> Seq<Rule> {
    seq![
        rule(RUST_PUB_FN_RE, ItemKind::Function, Strip::TrimEndChar('{'), 4, usize::MAX, 0),
        rule(RUST_PUB_STRUCT_RE, ItemKind::Struct, Strip::Trim, 4, usize::MAX, 0),
        rule(RUST_PUB_ENUM_RE, ItemKind::Enum, Strip::Trim, 4, usize::MAX, 0),
        rule(RUST_PUB_TRAIT_RE, ItemKind::Trait, Strip::Trim, 4, usize::MAX, 0),
        rule(RUST_PUB_CONST_RE, ItemKind::Const, Strip::Trim, 4, usize::MAX, 0),
        rule(RUST_PUB_TYPE_RE, ItemKind::Type, Strip::Trim, 4, usize::MAX, 0),
        rule(RUST_PUB_MOD_RE, ItemKind::Module, Strip::Trim, 4, usize::MAX, 0),
    ]
}

/// Python: top-level functions and classes whose names are not private.
pub open spec fn python_interface_rules() -> Seq<Rule> {
    seq![
        rule(PY_DEF_RE, ItemKind::Function, Strip::TrimEndChar(':'), 0, 0, 3),
        rule(PY_CLASS_RE, ItemKind::Class, Strip::TrimEndChar(':'), 0, 0, 2),
    ]
}

/// JavaScript and TypeScript: exported functions, arrow functions, classes
/// and default exports, all at level 0.
pub open spec fn js_interface_rules() -> Seq<Rule> {
    seq![
        rule(JS_EXPORT_FN_RE, ItemKind::Function, Strip::Trim, 0, usize::MAX, 0),
        rule(JS_EXPORT_CONST_RE, ItemKind::Function, Strip::TrimEndArrow, 0, usize::MAX, 0),
        rule(JS_EXPORT_CLASS_RE, ItemKind::Class, Strip::Trim, 0, usize::MAX, 0),
        rule(JS_EXPORT_DEFAULT_RE, ItemKind::Other, Strip::Trim, 0, usize::MAX, 0),
    ]
}

/// Ruby: methods nested at most one level, top-level classes and modules.
pub open spec fn ruby_interface_rules() -> Seq<Rule> {
    seq![
        rule(RUBY_DEF_RE, ItemKind::Function, Strip::Trim, 2, 2, 0),
        rule(RUBY_CLASS_RE, ItemKind::Class, Strip::Trim, 0, 0, 0),
        rule(RUBY_MODULE_RE, ItemKind::Module, Strip::Trim, 0, 0, 0),
    ]
}

/// Go: exported (capitalised) functions, struct types and interface types.
pub open spec fn go_interface_rules() -> Seq<Rule> {
    seq![
        rule(GO_PUB_FUNC_RE, ItemKind::Function, Strip::Trim, 0, usize::MAX, 0),
        rule(GO_PUB_STRUCT_RE, ItemKind::Struct, Strip::Trim, 0, usize::MAX, 0),
        rule(GO_PUB_INTERFACE_RE, ItemKind::Trait, Strip::Trim, 0, usize::MAX, 0),
    ]
}

fn rust_interface_rules_exec() -> (r: Vec<Rule>)
    ensures
        r@ == rust_interface_rules(),
{
    let mut r: Vec<Rule> = Vec::new();
    r.push(rule_exec(RUST_PUB_FN_RE, ItemKind::Function, Strip::TrimEndChar('{'), 4, usize::MAX, 0));
    r.push(rule_exec(RUST_PUB_STRUCT_RE, ItemKind::Struct, Strip::Trim, 4, usize::MAX, 0));
    r.push(rule_exec(RUST_PUB_ENUM_RE, ItemKind::Enum, Strip::Trim, 4, usize::MAX, 0));
    r.push(rule_exec(RUST_PUB_TRAIT_RE, ItemKind::Trait, Strip::Trim, 4, usize::MAX, 0));
    r.push(rule_exec(RUST_PUB_CONST_RE, ItemKind::Const, Strip::Trim, 4, usize::MAX, 0));
    r.push(rule_exec(RUST_PUB_TYPE_RE, ItemKind::Type, Strip::Trim, 4, usize::MAX, 0));
    r.push(rule_exec(RUST_PUB_MOD_RE, ItemKind::Module, Strip::Trim, 4, usize::MAX, 0));
    assert(r@ =~= rust_interface_rules());
    r
}

fn python_interface_rules_exec() -> (r: Vec<Rule>)
    ensures
        r@ == python_interface_rules(),
{
    let mut r: Vec<Rule> = Vec::new();
    r.push(rule_exec(PY_DEF_RE, ItemKind::Function, Strip::TrimEndChar(':'), 0, 0, 3));
    r.push(rule_exec(PY_CLASS_RE, ItemKind::Class, Strip::TrimEndChar(':'), 0, 0, 2));
    assert(r@ =~= python_interface_rules());
    r
}

fn js_interface_rules_exec() -> (r: Vec<Rule>)
    ensures
        r@ == js_interface_rules(),
{
    let mut r: Vec<Rule> = Vec::new();
    r.push(rule_exec(JS_EXPORT_FN_RE, ItemKind::Function, Strip::Trim, 0, usize::MAX, 0));
    r.push(rule_exec(JS_EXPORT_CONST_RE, ItemKind::Function, Strip::TrimEndArrow, 0, usize::MAX, 0));
    r.push(rule_exec(JS_EXPORT_CLASS_RE, ItemKind::Class, Strip::Trim, 0, usize::MAX, 0));
    r.push(rule_exec(JS_EXPORT_DEFAULT_RE, ItemKind::Other, Strip::Trim, 0, usize::MAX, 0));
    assert(r@ =~= js_interface_rules());
    r
}

fn ruby_interface_rules_exec() -> (r: Vec<Rule>)
    ensures
        r@ == ruby_interface_rules(),
{
    let mut r: Vec<Rule> = Vec::new();
    r.push(rule_exec(RUBY_DEF_RE, ItemKind::Function, Strip::Trim, 2, 2, 0));
    r.push(rule_exec(RUBY_CLASS_RE, ItemKind::Class, Strip::Trim, 0, 0, 0));
    r.push(rule_exec(RUBY_MODULE_RE, ItemKind::Module, Strip::Trim, 0, 0, 0));
    assert(r@ =~= ruby_interface_rules());
    r
}

fn go_interface_rules_exec() -> (r: Vec<Rule>)
    ensures
        r@ == go_interface_rules(),
{
    let mut r: Vec<Rule> = Vec::new();
    r.push(rule_exec(GO_PUB_FUNC_RE, ItemKind::Function, Strip::Trim, 0, usize::MAX, 0));
    r.push(rule_exec(GO_PUB_STRUCT_RE, ItemKind::Struct, Strip::Trim, 0, usize::MAX, 0));
    r.push(rule_exec(GO_PUB_INTERFACE_RE, ItemKind::Trait, Strip::Trim, 0, usize::MAX, 0));
    assert(r@ =~= go_interface_rules());
    r
}

/// One Ruby line: a bare `private` opens a private section, a bare `public`
/// closes it, a class or module line closes it too; methods in a private
/// section are left out. Returns the new section state and the line's items.
pub open spec fn ruby_step(in_private: bool, line: Seq<char>, num: nat) -> (bool, Seq<ItemView>) {
    if regex_captures_spec(RUBY_PRIVATE_RE@, line) is Some {
        (true, seq![])
    } else if regex_captures_spec(RUBY_PUBLIC_RE@, line) is Some {
        (false, seq![])
    } else {
        let ip = if regex_captures_spec(RUBY_CLASS_RE@, line) is Some || regex_captures_spec(
            RUBY_MODULE_RE@,
            line,
        ) is Some {
            false
        } else {
            in_private
        };
        if ip && regex_captures_spec(RUBY_DEF_RE@, line) is Some {
            (ip, seq![])
        } else {
            (ip, line_items(ruby_interface_rules(), line, num))
        }
    }
}

/// The Ruby interface of the lines, with the private-section state at the end.
pub open spec fn ruby_fold(ls: Seq<Seq<char>>) -> (bool, Seq<ItemView>)
    decreases ls.len(),
{
    if ls.len() == 0 {
        (false, seq![])
    } else {
        let (st, items) = ruby_fold(ls.drop_last());
        let (st2, more) = ruby_step(st, ls.last(), ls.len());
        (st2, items + more)
    }
}

fn ruby_interface_exec(ls: &Vec<Vec<char>>) -> (res: Vec<OutlineItem>)
    ensures
        items_view(res@) == ruby_fold(vv(ls@)).1,
{
    let rules = ruby_interface_rules_exec();
    let mut res: Vec<OutlineItem> = Vec::new();
    let mut in_private = false;
    let mut i: usize = 0;
    while i < ls.len()
        invariant
            i <= ls.len(),
            rules@ == ruby_interface_rules(),
            (in_private, items_view(res@)) == ruby_fold(vv(ls@).take(i as int)),
        decreases ls.len() - i,
    {
        let line = string_from_chars(&ls[i]);
        let l = line.as_str();
        let ghost before = res@;
        let ghost st = in_private;
        assert(vv(ls@).take(i + 1).drop_last() =~= vv(ls@).take(i as int));
        assert(vv(ls@).take(i + 1).last() == ls@[i as int]@);
        if regex_captures(RUBY_PRIVATE_RE, l).is_some() {
            in_private = true;
            assert(items_view(res@) =~= items_view(before) + Seq::<ItemView>::empty());
        } else if regex_captures(RUBY_PUBLIC_RE, l).is_some() {
            in_private = false;
            assert(items_view(res@) =~= items_view(before) + Seq::<ItemView>::empty());
        } else {
            if regex_captures(RUBY_CLASS_RE, l).is_some() || regex_captures(RUBY_MODULE_RE, l).is_some() {
                in_private = false;
            }
            if in_private && regex_captures(RUBY_DEF_RE, l).is_some() {
                assert(items_view(res@) =~= items_view(before) + Seq::<ItemView>::empty());
            } else {
                match first_rule_exec(&rules, l, i + 1) {
                    Some(Some(it)) => {
                        res.push(it);
                        assert(items_view(res@) =~= items_view(before).push(it@));
                    },
                    _ => {
                        assert(items_view(res@) =~= items_view(before) + Seq::<ItemView>::empty());
                    },
                }
            }
        }
        i = i + 1;
    }
    assert(vv(ls@).take(ls.len() as int) =~= vv(ls@));
    res
}

/// The public interface of `content` for a file named `path`, by extension:
/// `rs`, `py`, `js`/`ts`/`jsx`/`tsx`/`mjs`, `rb`, `go`; empty otherwise.
pub open spec fn interface_spec(content: Seq<char>, path: Seq<char>) -> Seq<ItemView> {
    let ext = path_extension_spec(path);
    let ls = lines(content);
    if ext == "rs"@ {
        items_for_lines(rust_interface_rules(), ls)
    } else if ext == "py"@ {
        items_for_lines(python_interface_rules(), ls)
    } else if ext == "js"@ || ext == "ts"@ || ext == "jsx"@ || ext == "tsx"@ || ext == "mjs"@ {
        items_for_lines(js_interface_rules(), ls)
    } else if ext == "rb"@ {
        ruby_fold(ls).1
    } else if ext == "go"@ {
        items_for_lines(go_interface_rules(), ls)
    } else {
        seq![]
    }
}

/// The public interface of a Rust file: public functions, structs, enums, traits, constants and type aliases.
fn extract_rust_interface(content: &str) -> (res: Vec<OutlineItem>)
    ensures
        items_view(res@) == items_for_lines(rust_interface_rules(), lines(content@)),
{
    let cs = chars_of(content);
    let ls = lines_of(&cs);
    items_for_lines_exec(&rust_interface_rules_exec(), &ls)
}

/// The public interface of a Python file: top-level functions and classes
/// whose names are not private.
fn extract_python_interface(content: &str) -> (res: Vec<OutlineItem>)
    ensures
        items_view(res@) == items_for_lines(python_interface_rules(), lines(content@)),
{
    let cs = chars_of(content);
    let ls = lines_of(&cs);
    items_for_lines_exec(&python_interface_rules_exec(), &ls)
}

/// The public interface of a JavaScript or TypeScript file: exported functions,
/// arrow functions, classes and default exports.
fn extract_js_interface(content: &str) -> (res: Vec<OutlineItem>)
    ensures
        items_view(res@) == items_for_lines(js_interface_rules(), lines(content@)),
{
    let cs = chars_of(content);
    let ls = lines_of(&cs);
    items_for_lines_exec(&js_interface_rules_exec(), &ls)
}

/// The public interface of a Go file: exported functions, structs and interfaces.
fn extract_go_interface(content: &str) -> (res: Vec<OutlineItem>)
    ensures
        items_view(res@) == items_for_lines(go_interface_rules(), lines(content@)),
{
    let cs = chars_of(content);
    let ls = lines_of(&cs);
    items_for_lines_exec(&go_interface_rules_exec(), &ls)
}

/// The public interface of a Ruby file: classes, modules, and the methods
/// outside `private` sections.
fn extract_ruby_interface(content: &str) -> (res: Vec<OutlineItem>)
    ensures
        items_view(res@) == ruby_fold(lines(content@)).1,
{
    let cs = chars_of(content);
    let ls = lines_of(&cs);
    ruby_interface_exec(&ls)
}

/// Extract public interface from file content
pub fn extract_interface(content: &str, path: &str) -> (res: Vec<OutlineItem>)
    ensures
        items_view(res@) == interface_spec(content@, path@),
{
    let ext_s = path_extension(path);
    let ext = chars_of(ext_s.as_str());
    if chars_eq_str(&ext, "rs") {
        extract_rust_interface(content)
    } else if chars_eq_str(&ext, "py") {
        extract_python_interface(content)
    } else if chars_eq_str(&ext, "js") || chars_eq_str(&ext, "ts") || chars_eq_str(&ext, "jsx")
        || chars_eq_str(&ext, "tsx") || chars_eq_str(&ext, "mjs") {
        extract_js_interface(content)
    } else if chars_eq_str(&ext, "rb") {
        extract_ruby_interface(content)
    } else if chars_eq_str(&ext, "go") {
        extract_go_interface(content)
    } else {
        Vec::new()
    }
}

/// The interface of a Rust file, line by line: the first of the `pub` function, struct, enum, trait, constant, type-alias and module patterns that matches a line, at any indent, gives an item of that kind on that line at one level per four bytes of indent, with the match trimmed as its text (trailing `{` dropped from a function); a line no pattern matches gives no item.
pub proof fn lemma_rust_interface_lines(content: Seq<char>, path: Seq<char>, k: int, g: Seq<Option<Seq<char>>>)
    requires
        path_extension_spec(path) == "rs"@,
        0 <= k < lines(content).len(),
    ensures
        regex_captures_spec(RUST_PUB_FN_RE@, lines(content)[k]) == Some(g) ==> interface_spec(content, path).contains((ItemView { line: (k + 1) as nat, text: trim(trim_end_matches(group(g, 0), seq!['{'])), level: byte_len(group(g, 1)) / 4, kind: ItemKind::Function })),
        regex_captures_spec(RUST_PUB_FN_RE@, lines(content)[k]) is None && regex_captures_spec(RUST_PUB_STRUCT_RE@, lines(content)[k]) == Some(g) ==> interface_spec(content, path).contains((ItemView { line: (k + 1) as nat, text: trim(group(g, 0)), level: byte_len(group(g, 1)) / 4, kind: ItemKind::Struct })),
        regex_captures_spec(RUST_PUB_FN_RE@, lines(content)[k]) is None && regex_captures_spec(RUST_PUB_STRUCT_RE@, lines(content)[k]) is None && regex_captures_spec(RUST_PUB_ENUM_RE@, lines(content)[k]) == Some(g) ==> interface_spec(content, path).contains((ItemView { line: (k + 1) as nat, text: trim(group(g, 0)), level: byte_len(group(g, 1)) / 4, kind: ItemKind::Enum })),
        regex_captures_spec(RUST_PUB_FN_RE@, lines(content)[k]) is None && regex_captures_spec(RUST_PUB_STRUCT_RE@, lines(content)[k]) is None && regex_captures_spec(RUST_PUB_ENUM_RE@, lines(content)[k]) is None && regex_captures_spec(RUST_PUB_TRAIT_RE@, lines(content)[k]) == Some(g) ==> interface_spec(content, path).contains((ItemView { line: (k + 1) as nat, text: trim(group(g, 0)), level: byte_len(group(g, 1)) / 4, kind: ItemKind::Trait })),
        regex_captures_spec(RUST_PUB_FN_RE@, lines(content)[k]) is None && regex_captures_spec(RUST_PUB_STRUCT_RE@, lines(content)[k]) is None && regex_captures_spec(RUST_PUB_ENUM_RE@, lines(content)[k]) is None && regex_captures_spec(RUST_PUB_TRAIT_RE@, lines(content)[k]) is None && regex_captures_spec(RUST_PUB_CONST_RE@, lines(content)[k]) == Some(g) ==> interface_spec(content, path).contains((ItemView { line: (k + 1) as nat, text: trim(group(g, 0)), level: byte_len(group(g, 1)) / 4, kind: ItemKind::Const })),
        regex_captures_spec(RUST_PUB_FN_RE@, lines(content)[k]) is None && regex_captures_spec(RUST_PUB_STRUCT_RE@, lines(content)[k]) is None && regex_captures_spec(RUST_PUB_ENUM_RE@, lines(content)[k]) is None && regex_captures_spec(RUST_PUB_TRAIT_RE@, lines(content)[k]) is None && regex_captures_spec(RUST_PUB_CONST_RE@, lines(content)[k]) is None && regex_captures_spec(RUST_PUB_TYPE_RE@, lines(content)[k]) == Some(g) ==> interface_spec(content, path).contains((ItemView { line: (k + 1) as nat, text: trim(group(g, 0)), level: byte_len(group(g, 1)) / 4, kind: ItemKind::Type })),
        regex_captures_spec(RUST_PUB_FN_RE@, lines(content)[k]) is None && regex_captures_spec(RUST_PUB_STRUCT_RE@, lines(content)[k]) is None && regex_captures_spec(RUST_PUB_ENUM_RE@, lines(content)[k]) is None && regex_captures_spec(RUST_PUB_TRAIT_RE@, lines(content)[k]) is None && regex_captures_spec(RUST_PUB_CONST_RE@, lines(content)[k]) is None && regex_captures_spec(RUST_PUB_TYPE_RE@, lines(content)[k]) is None && regex_captures_spec(RUST_PUB_MOD_RE@, lines(content)[k]) == Some(g) ==> interface_spec(content, path).contains((ItemView { line: (k + 1) as nat, text: trim(group(g, 0)), level: byte_len(group(g, 1)) / 4, kind: ItemKind::Module })),
        regex_captures_spec(RUST_PUB_FN_RE@, lines(content)[k]) is None && regex_captures_spec(RUST_PUB_STRUCT_RE@, lines(content)[k]) is None && regex_captures_spec(RUST_PUB_ENUM_RE@, lines(content)[k]) is None && regex_captures_spec(RUST_PUB_TRAIT_RE@, lines(content)[k]) is None && regex_captures_spec(RUST_PUB_CONST_RE@, lines(content)[k]) is None && regex_captures_spec(RUST_PUB_TYPE_RE@, lines(content)[k]) is None && regex_captures_spec(RUST_PUB_MOD_RE@, lines(content)[k]) is None ==> no_item_on(interface_spec(content, path), (k + 1) as nat),
{
    reveal_strlit("rs");
    let ls = lines(content);
    let rules = rust_interface_rules();
    let num = (k + 1) as nat;
    assert(interface_spec(content, path) == items_for_lines(rules, ls));
    lemma_first_rule_line(rules, ls[k], num);
    if regex_captures_spec(RUST_PUB_FN_RE@, ls[k]) == Some(g) {
        lemma_first_rule_at(rules, ls[k], num, 0, g);
        match rule_item(rules[0], g, num) {
            Some(it) => {
                lemma_items_for_lines_has(rules, ls, k, it);
            },
            None => {
                lemma_items_for_lines_lacks(rules, ls, k);
            },
        }
    }
    if regex_captures_spec(RUST_PUB_FN_RE@, ls[k]) is None && regex_captures_spec(RUST_PUB_STRUCT_RE@, ls[k]) == Some(g) {
        assert forall|j: int| 0 <= j < 1 implies regex_captures_spec((#[trigger] rules[j]).pattern@, ls[k]) is None by {
            if j == 0 {}
        }
        lemma_first_rule_at(rules, ls[k], num, 1, g);
        match rule_item(rules[1], g, num) {
            Some(it) => {
                lemma_items_for_lines_has(rules, ls, k, it);
            },
            None => {
                lemma_items_for_lines_lacks(rules, ls, k);
            },
        }
    }
    if regex_captures_spec(RUST_PUB_FN_RE@, ls[k]) is None && regex_captures_spec(RUST_PUB_STRUCT_RE@, ls[k]) is None && regex_captures_spec(RUST_PUB_ENUM_RE@, ls[k]) == Some(g) {
        assert forall|j: int| 0 <= j < 2 implies regex_captures_spec((#[trigger] rules[j]).pattern@, ls[k]) is None by {
            if j == 0 {} else if j == 1 {}
        }
        lemma_first_rule_at(rules, ls[k], num, 2, g);
        match rule_item(rules[2], g, num) {
            Some(it) => {
                lemma_items_for_lines_has(rules, ls, k, it);
            },
            None => {
                lemma_items_for_lines_lacks(rules, ls, k);
            },
        }
    }
    if regex_captures_spec(RUST_PUB_FN_RE@, ls[k]) is None && regex_captures_spec(RUST_PUB_STRUCT_RE@, ls[k]) is None && regex_captures_spec(RUST_PUB_ENUM_RE@, ls[k]) is None && regex_captures_spec(RUST_PUB_TRAIT_RE@, ls[k]) == Some(g) {
        assert forall|j: int| 0 <= j < 3 implies regex_captures_spec((#[trigger] rules[j]).pattern@, ls[k]) is None by {
            if j == 0 {} else if j == 1 {} else if j == 2 {}
        }
        lemma_first_rule_at(rules, ls[k], num, 3, g);
        match rule_item(rules[3], g, num) {
            Some(it) => {
                lemma_items_for_lines_has(rules, ls, k, it);
            },
            None => {
                lemma_items_for_lines_lacks(rules, ls, k);
            },
        }
    }
    if regex_captures_spec(RUST_PUB_FN_RE@, ls[k]) is None && regex_captures_spec(RUST_PUB_STRUCT_RE@, ls[k]) is None && regex_captures_spec(RUST_PUB_ENUM_RE@, ls[k]) is None && regex_captures_spec(RUST_PUB_TRAIT_RE@, ls[k]) is None && regex_captures_spec(RUST_PUB_CONST_RE@, ls[k]) == Some(g) {
        assert forall|j: int| 0 <= j < 4 implies regex_captures_spec((#[trigger] rules[j]).pattern@, ls[k]) is None by {
            if j == 0 {} else if j == 1 {} else if j == 2 {} else if j == 3 {}
        }
        lemma_first_rule_at(rules, ls[k], num, 4, g);
        match rule_item(rules[4], g, num) {
            Some(it) => {
                lemma_items_for_lines_has(rules, ls, k, it);
            },
            None => {
                lemma_items_for_lines_lacks(rules, ls, k);
            },
        }
    }
    if regex_captures_spec(RUST_PUB_FN_RE@, ls[k]) is None && regex_captures_spec(RUST_PUB_STRUCT_RE@, ls[k]) is None && regex_captures_spec(RUST_PUB_ENUM_RE@, ls[k]) is None && regex_captures_spec(RUST_PUB_TRAIT_RE@, ls[k]) is None && regex_captures_spec(RUST_PUB_CONST_RE@, ls[k]) is None && regex_captures_spec(RUST_PUB_TYPE_RE@, ls[k]) == Some(g) {
        assert forall|j: int| 0 <= j < 5 implies regex_captures_spec((#[trigger] rules[j]).pattern@, ls[k]) is None by {
            if j == 0 {} else if j == 1 {} else if j == 2 {} else if j == 3 {} else if j == 4 {}
        }
        lemma_first_rule_at(rules, ls[k], num, 5, g);
        match rule_item(rules[5], g, num) {
            Some(it) => {
                lemma_items_for_lines_has(rules, ls, k, it);
            },
            None => {
                lemma_items_for_lines_lacks(rules, ls, k);
            },
        }
    }
    if regex_captures_spec(RUST_PUB_FN_RE@, ls[k]) is None && regex_captures_spec(RUST_PUB_STRUCT_RE@, ls[k]) is None && regex_captures_spec(RUST_PUB_ENUM_RE@, ls[k]) is None && regex_captures_spec(RUST_PUB_TRAIT_RE@, ls[k]) is None && regex_captures_spec(RUST_PUB_CONST_RE@, ls[k]) is None && regex_captures_spec(RUST_PUB_TYPE_RE@, ls[k]) is None && regex_captures_spec(RUST_PUB_MOD_RE@, ls[k]) == Some(g) {
        assert forall|j: int| 0 <= j < 6 implies regex_captures_spec((#[trigger] rules[j]).pattern@, ls[k]) is None by {
            if j == 0 {} else if j == 1 {} else if j == 2 {} else if j == 3 {} else if j == 4 {} else if j == 5 {}
        }
        lemma_first_rule_at(rules, ls[k], num, 6, g);
        match rule_item(rules[6], g, num) {
            Some(it) => {
                lemma_items_for_lines_has(rules, ls, k, it);
            },
            None => {
                lemma_items_for_lines_lacks(rules, ls, k);
            },
        }
    }
    if regex_captures_spec(RUST_PUB_FN_RE@, ls[k]) is None && regex_captures_spec(RUST_PUB_STRUCT_RE@, ls[k]) is None && regex_captures_spec(RUST_PUB_ENUM_RE@, ls[k]) is None && regex_captures_spec(RUST_PUB_TRAIT_RE@, ls[k]) is None && regex_captures_spec(RUST_PUB_CONST_RE@, ls[k]) is None && regex_captures_spec(RUST_PUB_TYPE_RE@, ls[k]) is None && regex_captures_spec(RUST_PUB_MOD_RE@, ls[k]) is None {
        assert forall|j: int| 0 <= j < 7 implies regex_captures_spec((#[trigger] rules[j]).pattern@, ls[k]) is None by {
            if j == 0 {} else if j == 1 {} else if j == 2 {} else if j == 3 {} else if j == 4 {} else if j == 5 {} else if j == 6 {}
        }
        lemma_first_rule_none(rules, ls[k], num);
        lemma_items_for_lines_lacks(rules, ls, k);
    }
}

/// The interface of a Python file, line by line: an unindented `def` or `class` line whose name is not private gives a function or class item at level 0 with the match (trailing `:` dropped) trimmed as its text; an indented one or one with a private name gives no item, nor does any other line.
pub proof fn lemma_python_interface_lines(content: Seq<char>, path: Seq<char>, k: int, g: Seq<Option<Seq<char>>>)
    requires
        path_extension_spec(path) == "py"@,
        0 <= k < lines(content).len(),
    ensures
        regex_captures_spec(PY_DEF_RE@, lines(content)[k]) == Some(g) && byte_len(group(g, 1)) <= 0 && !is_private_name(group(g, 3)) ==> interface_spec(content, path).contains((ItemView { line: (k + 1) as nat, text: trim(trim_end_matches(group(g, 0), seq![':'])), level: 0, kind: ItemKind::Function })),
        regex_captures_spec(PY_DEF_RE@, lines(content)[k]) == Some(g) && !(byte_len(group(g, 1)) <= 0 && !is_private_name(group(g, 3))) ==> no_item_on(interface_spec(content, path), (k + 1) as nat),
        regex_captures_spec(PY_DEF_RE@, lines(content)[k]) is None && regex_captures_spec(PY_CLASS_RE@, lines(content)[k]) == Some(g) && byte_len(group(g, 1)) <= 0 && !is_private_name(group(g, 2)) ==> interface_spec(content, path).contains((ItemView { line: (k + 1) as nat, text: trim(trim_end_matches(group(g, 0), seq![':'])), level: 0, kind: ItemKind::Class })),
        regex_captures_spec(PY_DEF_RE@, lines(content)[k]) is None && regex_captures_spec(PY_CLASS_RE@, lines(content)[k]) == Some(g) && !(byte_len(group(g, 1)) <= 0 && !is_private_name(group(g, 2))) ==> no_item_on(interface_spec(content, path), (k + 1) as nat),
        regex_captures_spec(PY_DEF_RE@, lines(content)[k]) is None && regex_captures_spec(PY_CLASS_RE@, lines(content)[k]) is None ==> no_item_on(interface_spec(content, path), (k + 1) as nat),
{
    reveal_strlit("py");
    reveal_strlit("rs");
    assert("py"@ != "rs"@) by { assert("py"@[0] != "rs"@[0]); }
    let ls = lines(content);
    let rules = python_interface_rules();
    let num = (k + 1) as nat;
    assert(interface_spec(content, path) == items_for_lines(rules, ls));
    lemma_first_rule_line(rules, ls[k], num);
    if regex_captures_spec(PY_DEF_RE@, ls[k]) == Some(g) {
        lemma_first_rule_at(rules, ls[k], num, 0, g);
        match rule_item(rules[0], g, num) {
            Some(it) => {
                lemma_items_for_lines_has(rules, ls, k, it);
            },
            None => {
                lemma_items_for_lines_lacks(rules, ls, k);
            },
        }
    }
    if regex_captures_spec(PY_DEF_RE@, ls[k]) is None && regex_captures_spec(PY_CLASS_RE@, ls[k]) == Some(g) {
        assert forall|j: int| 0 <= j < 1 implies regex_captures_spec((#[trigger] rules[j]).pattern@, ls[k]) is None by {
            if j == 0 {}
        }
        lemma_first_rule_at(rules, ls[k], num, 1, g);
        match rule_item(rules[1], g, num) {
            Some(it) => {
                lemma_items_for_lines_has(rules, ls, k, it);
            },
            None => {
                lemma_items_for_lines_lacks(rules, ls, k);
            },
        }
    }
    if regex_captures_spec(PY_DEF_RE@, ls[k]) is None && regex_captures_spec(PY_CLASS_RE@, ls[k]) is None {
        assert forall|j: int| 0 <= j < 2 implies regex_captures_spec((#[trigger] rules[j]).pattern@, ls[k]) is None by {
            if j == 0 {} else if j == 1 {}
        }
        lemma_first_rule_none(rules, ls[k], num);
        lemma_items_for_lines_lacks(rules, ls, k);
    }
}

/// The interface of a JavaScript or TypeScript file, line by line: an exported function, exported arrow function (trailing `=>` dropped), exported class or default export gives an item at level 0 with the match trimmed as its text; other lines give no item.
pub proof fn lemma_js_interface_lines(content: Seq<char>, path: Seq<char>, k: int, g: Seq<Option<Seq<char>>>)
    requires
        path_extension_spec(path) == "js"@ || path_extension_spec(path) == "ts"@ || path_extension_spec(path) == "jsx"@ || path_extension_spec(path) == "tsx"@ || path_extension_spec(path) == "mjs"@,
        0 <= k < lines(content).len(),
    ensures
        regex_captures_spec(JS_EXPORT_FN_RE@, lines(content)[k]) == Some(g) ==> interface_spec(content, path).contains((ItemView { line: (k + 1) as nat, text: trim(group(g, 0)), level: 0, kind: ItemKind::Function })),
        regex_captures_spec(JS_EXPORT_FN_RE@, lines(content)[k]) is None && regex_captures_spec(JS_EXPORT_CONST_RE@, lines(content)[k]) == Some(g) ==> interface_spec(content, path).contains((ItemView { line: (k + 1) as nat, text: trim(trim_end_matches(group(g, 0), seq!['=', '>'])), level: 0, kind: ItemKind::Function })),
        regex_captures_spec(JS_EXPORT_FN_RE@, lines(content)[k]) is None && regex_captures_spec(JS_EXPORT_CONST_RE@, lines(content)[k]) is None && regex_captures_spec(JS_EXPORT_CLASS_RE@, lines(content)[k]) == Some(g) ==> interface_spec(content, path).contains((ItemView { line: (k + 1) as nat, text: trim(group(g, 0)), level: 0, kind: ItemKind::Class })),
        regex_captures_spec(JS_EXPORT_FN_RE@, lines(content)[k]) is None && regex_captures_spec(JS_EXPORT_CONST_RE@, lines(content)[k]) is None && regex_captures_spec(JS_EXPORT_CLASS_RE@, lines(content)[k]) is None && regex_captures_spec(JS_EXPORT_DEFAULT_RE@, lines(content)[k]) == Some(g) ==> interface_spec(content, path).contains((ItemView { line: (k + 1) as nat, text: trim(group(g, 0)), level: 0, kind: ItemKind::Other })),
        regex_captures_spec(JS_EXPORT_FN_RE@, lines(content)[k]) is None && regex_captures_spec(JS_EXPORT_CONST_RE@, lines(content)[k]) is None && regex_captures_spec(JS_EXPORT_CLASS_RE@, lines(content)[k]) is None && regex_captures_spec(JS_EXPORT_DEFAULT_RE@, lines(content)[k]) is None ==> no_item_on(interface_spec(content, path), (k + 1) as nat),
{
    reveal_strlit("js");
    reveal_strlit("jsx");
    reveal_strlit("mjs");
    reveal_strlit("py");
    reveal_strlit("rs");
    reveal_strlit("ts");
    reveal_strlit("tsx");
    assert("js"@ != "rs"@) by { assert("js"@[0] != "rs"@[0]); }
    assert("js"@ != "py"@) by { assert("js"@[0] != "py"@[0]); }
    assert("ts"@ != "rs"@) by { assert("ts"@[0] != "rs"@[0]); }
    assert("ts"@ != "py"@) by { assert("ts"@[0] != "py"@[0]); }
    assert("jsx"@ != "rs"@) by { assert("jsx"@.len() != "rs"@.len()); }
    assert("jsx"@ != "py"@) by { assert("jsx"@.len() != "py"@.len()); }
    assert("tsx"@ != "rs"@) by { assert("tsx"@.len() != "rs"@.len()); }
    assert("tsx"@ != "py"@) by { assert("tsx"@.len() != "py"@.len()); }
    assert("mjs"@ != "rs"@) by { assert("mjs"@.len() != "rs"@.len()); }
    assert("mjs"@ != "py"@) by { assert("mjs"@.len() != "py"@.len()); }
    let ls = lines(content);
    let rules = js_interface_rules();
    let num = (k + 1) as nat;
    assert(interface_spec(content, path) == items_for_lines(rules, ls));
    lemma_first_rule_line(rules, ls[k], num);
    if regex_captures_spec(JS_EXPORT_FN_RE@, ls[k]) == Some(g) {
        lemma_first_rule_at(rules, ls[k], num, 0, g);
        match rule_item(rules[0], g, num) {
            Some(it) => {
                lemma_items_for_lines_has(rules, ls, k, it);
            },
            None => {
                lemma_items_for_lines_lacks(rules, ls, k);
            },
        }
    }
    if regex_captures_spec(JS_EXPORT_FN_RE@, ls[k]) is None && regex_captures_spec(JS_EXPORT_CONST_RE@, ls[k]) == Some(g) {
        assert forall|j: int| 0 <= j < 1 implies regex_captures_spec((#[trigger] rules[j]).pattern@, ls[k]) is None by {
            if j == 0 {}
        }
        lemma_first_rule_at(rules, ls[k], num, 1, g);
        match rule_item(rules[1], g, num) {
            Some(it) => {
                lemma_items_for_lines_has(rules, ls, k, it);
            },
            None => {
                lemma_items_for_lines_lacks(rules, ls, k);
            },
        }
    }
    if regex_captures_spec(JS_EXPORT_FN_RE@, ls[k]) is None && regex_captures_spec(JS_EXPORT_CONST_RE@, ls[k]) is None && regex_captures_spec(JS_EXPORT_CLASS_RE@, ls[k]) == Some(g) {
        assert forall|j: int| 0 <= j < 2 implies regex_captures_spec((#[trigger] rules[j]).pattern@, ls[k]) is None by {
            if j == 0 {} else if j == 1 {}
        }
        lemma_first_rule_at(rules, ls[k], num, 2, g);
        match rule_item(rules[2], g, num) {
            Some(it) => {
                lemma_items_for_lines_has(rules, ls, k, it);
            },
            None => {
                lemma_items_for_lines_lacks(rules, ls, k);
            },
        }
    }
    if regex_captures_spec(JS_EXPORT_FN_RE@, ls[k]) is None && regex_captures_spec(JS_EXPORT_CONST_RE@, ls[k]) is None && regex_captures_spec(JS_EXPORT_CLASS_RE@, ls[k]) is None && regex_captures_spec(JS_EXPORT_DEFAULT_RE@, ls[k]) == Some(g) {
        assert forall|j: int| 0 <= j < 3 implies regex_captures_spec((#[trigger] rules[j]).pattern@, ls[k]) is None by {
            if j == 0 {} else if j == 1 {} else if j == 2 {}
        }
        lemma_first_rule_at(rules, ls[k], num, 3, g);
        match rule_item(rules[3], g, num) {
            Some(it) => {
                lemma_items_for_lines_has(rules, ls, k, it);
            },
            None => {
                lemma_items_for_lines_lacks(rules, ls, k);
            },
        }
    }
    if regex_captures_spec(JS_EXPORT_FN_RE@, ls[k]) is None && regex_captures_spec(JS_EXPORT_CONST_RE@, ls[k]) is None && regex_captures_spec(JS_EXPORT_CLASS_RE@, ls[k]) is None && regex_captures_spec(JS_EXPORT_DEFAULT_RE@, ls[k]) is None {
        assert forall|j: int| 0 <= j < 4 implies regex_captures_spec((#[trigger] rules[j]).pattern@, ls[k]) is None by {
            if j == 0 {} else if j == 1 {} else if j == 2 {} else if j == 3 {}
        }
        lemma_first_rule_none(rules, ls[k], num);
        lemma_items_for_lines_lacks(rules, ls, k);
    }
}

/// The interface of a Go file, line by line: an exported function, struct type or interface type gives an item at level 0 with the match trimmed as its text; other lines give no item.
pub proof fn lemma_go_interface_lines(content: Seq<char>, path: Seq<char>, k: int, g: Seq<Option<Seq<char>>>)
    requires
        path_extension_spec(path) == "go"@,
        0 <= k < lines(content).len(),
    ensures
        regex_captures_spec(GO_PUB_FUNC_RE@, lines(content)[k]) == Some(g) ==> interface_spec(content, path).contains((ItemView { line: (k + 1) as nat, text: trim(group(g, 0)), level: 0, kind: ItemKind::Function })),
        regex_captures_spec(GO_PUB_FUNC_RE@, lines(content)[k]) is None && regex_captures_spec(GO_PUB_STRUCT_RE@, lines(content)[k]) == Some(g) ==> interface_spec(content, path).contains((ItemView { line: (k + 1) as nat, text: trim(group(g, 0)), level: 0, kind: ItemKind::Struct })),
        regex_captures_spec(GO_PUB_FUNC_RE@, lines(content)[k]) is None && regex_captures_spec(GO_PUB_STRUCT_RE@, lines(content)[k]) is None && regex_captures_spec(GO_PUB_INTERFACE_RE@, lines(content)[k]) == Some(g) ==> interface_spec(content, path).contains((ItemView { line: (k + 1) as nat, text: trim(group(g, 0)), level: 0, kind: ItemKind::Trait })),
        regex_captures_spec(GO_PUB_FUNC_RE@, lines(content)[k]) is None && regex_captures_spec(GO_PUB_STRUCT_RE@, lines(content)[k]) is None && regex_captures_spec(GO_PUB_INTERFACE_RE@, lines(content)[k]) is None ==> no_item_on(interface_spec(content, path), (k + 1) as nat),
{
    reveal_strlit("go");
    reveal_strlit("js");
    reveal_strlit("jsx");
    reveal_strlit("mjs");
    reveal_strlit("py");
    reveal_strlit("rb");
    reveal_strlit("rs");
    reveal_strlit("ts");
    reveal_strlit("tsx");
    assert("go"@ != "rs"@) by { assert("go"@[0] != "rs"@[0]); }
    assert("go"@ != "py"@) by { assert("go"@[0] != "py"@[0]); }
    assert("go"@ != "js"@) by { assert("go"@[0] != "js"@[0]); }
    assert("go"@ != "ts"@) by { assert("go"@[0] != "ts"@[0]); }
    assert("go"@ != "jsx"@) by { assert("go"@.len() != "jsx"@.len()); }
    assert("go"@ != "tsx"@) by { assert("go"@.len() != "tsx"@.len()); }
    assert("go"@ != "mjs"@) by { assert("go"@.len() != "mjs"@.len()); }
    assert("go"@ != "rb"@) by { assert("go"@[0] != "rb"@[0]); }
    let ls = lines(content);
    let rules = go_interface_rules();
    let num = (k + 1) as nat;
    assert(interface_spec(content, path) == items_for_lines(rules, ls));
    lemma_first_rule_line(rules, ls[k], num);
    if regex_captures_spec(GO_PUB_FUNC_RE@, ls[k]) == Some(g) {
        lemma_first_rule_at(rules, ls[k], num, 0, g);
        match rule_item(rules[0], g, num) {
            Some(it) => {
                lemma_items_for_lines_has(rules, ls, k, it);
            },
            None => {
                lemma_items_for_lines_lacks(rules, ls, k);
            },
        }
    }
    if regex_captures_spec(GO_PUB_FUNC_RE@, ls[k]) is None && regex_captures_spec(GO_PUB_STRUCT_RE@, ls[k]) == Some(g) {
        assert forall|j: int| 0 <= j < 1 implies regex_captures_spec((#[trigger] rules[j]).pattern@, ls[k]) is None by {
            if j == 0 {}
        }
        lemma_first_rule_at(rules, ls[k], num, 1, g);
        match rule_item(rules[1], g, num) {
            Some(it) => {
                lemma_items_for_lines_has(rules, ls, k, it);
            },
            None => {
                lemma_items_for_lines_lacks(rules, ls, k);
            },
        }
    }
    if regex_captures_spec(GO_PUB_FUNC_RE@, ls[k]) is None && regex_captures_spec(GO_PUB_STRUCT_RE@, ls[k]) is None && regex_captures_spec(GO_PUB_INTERFACE_RE@, ls[k]) == Some(g) {
        assert forall|j: int| 0 <= j < 2 implies regex_captures_spec((#[trigger] rules[j]).pattern@, ls[k]) is None by {
            if j == 0 {} else if j == 1 {}
        }
        lemma_first_rule_at(rules, ls[k], num, 2, g);
        match rule_item(rules[2], g, num) {
            Some(it) => {
                lemma_items_for_lines_has(rules, ls, k, it);
            },
            None => {
                lemma_items_for_lines_lacks(rules, ls, k);
            },
        }
    }
    if regex_captures_spec(GO_PUB_FUNC_RE@, ls[k]) is None && regex_captures_spec(GO_PUB_STRUCT_RE@, ls[k]) is None && regex_captures_spec(GO_PUB_INTERFACE_RE@, ls[k]) is None {
        assert forall|j: int| 0 <= j < 3 implies regex_captures_spec((#[trigger] rules[j]).pattern@, ls[k]) is None by {
            if j == 0 {} else if j == 1 {} else if j == 2 {}
        }
        lemma_first_rule_none(rules, ls[k], num);
        lemma_items_for_lines_lacks(rules, ls, k);
    }
}


/// The items a Ruby step yields are items of its line.
proof fn lemma_ruby_step_line(st: bool, line: Seq<char>, num: nat)
    ensures
        forall|j: int| 0 <= j < ruby_step(st, line, num).1.len() ==> (#[trigger] ruby_step(st, line, num).1[j]).line == num,
{
    lemma_first_rule_line(ruby_interface_rules(), line, num);
}

/// The Ruby interface items carry line numbers from 1 to the number of lines.
proof fn lemma_ruby_fold_lines(ls: Seq<Seq<char>>)
    ensures
        forall|j: int| 0 <= j < ruby_fold(ls).1.len() ==> 1 <= (#[trigger] ruby_fold(ls).1[j]).line <= ls.len(),
    decreases ls.len(),
{
    if ls.len() > 0 {
        let init = ls.drop_last();
        lemma_ruby_fold_lines(init);
        let (st, items) = ruby_fold(init);
        lemma_ruby_step_line(st, ls.last(), ls.len());
        let all = ruby_fold(ls).1;
        assert forall|j: int| 0 <= j < all.len() implies 1 <= (#[trigger] all[j]).line <= ls.len() by {
            if j >= items.len() {
                assert(all[j] == ruby_step(st, ls.last(), ls.len()).1[j - items.len()]);
            } else {
                assert(all[j] == items[j]);
            }
        }
    }
}

/// What line `k` yields, given the section state after the lines before it,
/// is among the Ruby interface items; and no other line yields an item of
/// line `k`.
proof fn lemma_ruby_fold_at(ls: Seq<Seq<char>>, k: int)
    requires
        0 <= k < ls.len(),
    ensures
        forall|j: int| 0 <= j < ruby_step(ruby_fold(ls.take(k)).0, ls[k], (k + 1) as nat).1.len()
            ==> ruby_fold(ls).1.contains(#[trigger] ruby_step(ruby_fold(ls.take(k)).0, ls[k], (k + 1) as nat).1[j]),
        ruby_step(ruby_fold(ls.take(k)).0, ls[k], (k + 1) as nat).1.len() == 0 ==> no_item_on(ruby_fold(ls).1, (k + 1) as nat),
    decreases ls.len(),
{
    let init = ls.drop_last();
    let (st, items) = ruby_fold(init);
    let step = ruby_step(st, ls.last(), ls.len());
    let all = ruby_fold(ls).1;
    assert(all == items + step.1);
    lemma_ruby_step_line(st, ls.last(), ls.len());
    if k == ls.len() - 1 {
        assert(ls.take(k) =~= init);
        lemma_ruby_fold_lines(init);
        assert forall|j: int| 0 <= j < step.1.len() implies all.contains(#[trigger] step.1[j]) by {
            assert(all[items.len() + j] == step.1[j]);
        }
        if step.1.len() == 0 {
            assert(all =~= items);
        }
    } else {
        assert(init.take(k) =~= ls.take(k));
        assert(init[k] == ls[k]);
        lemma_ruby_fold_at(init, k);
        let here = ruby_step(ruby_fold(ls.take(k)).0, ls[k], (k + 1) as nat).1;
        assert forall|j: int| 0 <= j < here.len() implies all.contains(#[trigger] here[j]) by {
            assert(items.contains(here[j]));
            let m = choose|m: int| 0 <= m < items.len() && items[m] == here[j];
            assert(all[m] == here[j]);
        }
        if here.len() == 0 {
            assert forall|j: int| 0 <= j < all.len() implies (#[trigger] all[j]).line != k + 1 by {
                if j >= items.len() {
                    assert(all[j] == step.1[j - items.len()]);
                } else {
                    assert(all[j] == items[j]);
                }
            }
        }
    }
}

/// No bare `private` line: the section state stays public.
proof fn lemma_ruby_public(ls: Seq<Seq<char>>)
    requires
        forall|j: int| 0 <= j < ls.len() ==> regex_captures_spec(RUBY_PRIVATE_RE@, #[trigger] ls[j]) is None,
    ensures
        !ruby_fold(ls).0,
    decreases ls.len(),
{
    if ls.len() > 0 {
        let init = ls.drop_last();
        assert forall|j: int| 0 <= j < init.len() implies regex_captures_spec(RUBY_PRIVATE_RE@, #[trigger] init[j]) is None by {
            assert(init[j] == ls[j]);
        }
        lemma_ruby_public(init);
        assert(regex_captures_spec(RUBY_PRIVATE_RE@, ls[ls.len() - 1]) is None);
    }
}

/// After a bare `private` line at `p`, with no `public`, class or module
/// line after it, the section state is private.
proof fn lemma_ruby_private(ls: Seq<Seq<char>>, p: int)
    requires
        0 <= p < ls.len(),
        regex_captures_spec(RUBY_PRIVATE_RE@, ls[p]) is Some,
        forall|m: int|
            p < m < ls.len() ==> regex_captures_spec(RUBY_PUBLIC_RE@, #[trigger] ls[m]) is None
                && regex_captures_spec(RUBY_CLASS_RE@, ls[m]) is None && regex_captures_spec(
                RUBY_MODULE_RE@,
                ls[m],
            ) is None,
    ensures
        ruby_fold(ls).0,
    decreases ls.len(),
{
    let init = ls.drop_last();
    if p < ls.len() - 1 {
        assert(init[p] == ls[p]);
        assert forall|m: int| p < m < init.len() implies regex_captures_spec(RUBY_PUBLIC_RE@, #[trigger] init[m]) is None
            && regex_captures_spec(RUBY_CLASS_RE@, init[m]) is None && regex_captures_spec(RUBY_MODULE_RE@, init[m])
            is None by {
            assert(init[m] == ls[m]);
        }
        lemma_ruby_private(init, p);
        let last = ls[ls.len() - 1];
        assert(regex_captures_spec(RUBY_PUBLIC_RE@, last) is None);
        assert(regex_captures_spec(RUBY_CLASS_RE@, last) is None);
    }
}

/// The interface of a Ruby file keeps the methods of public sections and
/// leaves out those of private ones: a method line (not itself `private`,
/// `public`, a class or a module) with no bare `private` line before it is
/// a function item, at one level per two bytes of indent, when it is
/// nested at most one level, with the match trimmed as its text; a method
/// line after a bare `private` line, with no `public`, class or module
/// line between them, gives no item.
pub proof fn lemma_ruby_interface_methods(content: Seq<char>, path: Seq<char>, k: int, g: Seq<Option<Seq<char>>>)
    requires
        path_extension_spec(path) == "rb"@,
        0 <= k < lines(content).len(),
        regex_captures_spec(RUBY_PRIVATE_RE@, lines(content)[k]) is None,
        regex_captures_spec(RUBY_PUBLIC_RE@, lines(content)[k]) is None,
        regex_captures_spec(RUBY_CLASS_RE@, lines(content)[k]) is None,
        regex_captures_spec(RUBY_MODULE_RE@, lines(content)[k]) is None,
        regex_captures_spec(RUBY_DEF_RE@, lines(content)[k]) == Some(g),
    ensures
        (forall|j: int| 0 <= j < k ==> regex_captures_spec(RUBY_PRIVATE_RE@, #[trigger] lines(content)[j]) is None)
            && byte_len(group(g, 1)) <= 2 ==> interface_spec(content, path).contains((ItemView {
            line: (k + 1) as nat,
            text: trim(group(g, 0)),
            level: byte_len(group(g, 1)) / 2,
            kind: ItemKind::Function,
        })),
        (exists|p: int|
            0 <= p < k && regex_captures_spec(RUBY_PRIVATE_RE@, #[trigger] lines(content)[p]) is Some && forall|m: int|
                p < m < k ==> regex_captures_spec(RUBY_PUBLIC_RE@, #[trigger] lines(content)[m]) is None
                    && regex_captures_spec(RUBY_CLASS_RE@, lines(content)[m]) is None
                    && regex_captures_spec(RUBY_MODULE_RE@, lines(content)[m]) is None) ==> no_item_on(
            interface_spec(content, path),
            (k + 1) as nat,
        ),
{
    reveal_strlit("rb");
    reveal_strlit("rs");
    reveal_strlit("py");
    reveal_strlit("js");
    reveal_strlit("ts");
    reveal_strlit("jsx");
    reveal_strlit("tsx");
    reveal_strlit("mjs");
    assert("rb"@ != "rs"@) by { assert("rb"@[1] != "rs"@[1]); }
    assert("rb"@ != "py"@) by { assert("rb"@[0] != "py"@[0]); }
    assert("rb"@ != "js"@) by { assert("rb"@[0] != "js"@[0]); }
    assert("rb"@ != "ts"@) by { assert("rb"@[0] != "ts"@[0]); }
    assert("rb"@ != "jsx"@) by { assert("rb"@.len() != "jsx"@.len()); }
    assert("rb"@ != "tsx"@) by { assert("rb"@.len() != "tsx"@.len()); }
    assert("rb"@ != "mjs"@) by { assert("rb"@.len() != "mjs"@.len()); }
    let ls = lines(content);
    assert(interface_spec(content, path) == ruby_fold(ls).1);
    let pre = ls.take(k);
    lemma_ruby_fold_at(ls, k);
    let num = (k + 1) as nat;
    if (forall|j: int| 0 <= j < k ==> regex_captures_spec(RUBY_PRIVATE_RE@, #[trigger] ls[j]) is None) && byte_len(group(g, 1)) <= 2 {
        assert forall|j: int| 0 <= j < pre.len() implies regex_captures_spec(RUBY_PRIVATE_RE@, #[trigger] pre[j]) is None by {
            assert(pre[j] == ls[j]);
        }
        lemma_ruby_public(pre);
        lemma_first_rule_at(ruby_interface_rules(), ls[k], num, 0, g);
        let step = ruby_step(ruby_fold(pre).0, ls[k], num);
        assert(step.1[0] == (ItemView {
            line: num,
            text: trim(group(g, 0)),
            level: byte_len(group(g, 1)) / 2,
            kind: ItemKind::Function,
        }));
    }
    if exists|p: int|
        0 <= p < k && regex_captures_spec(RUBY_PRIVATE_RE@, #[trigger] ls[p]) is Some && forall|m: int|
            p < m < k ==> regex_captures_spec(RUBY_PUBLIC_RE@, #[trigger] ls[m]) is None
                && regex_captures_spec(RUBY_CLASS_RE@, ls[m]) is None
                && regex_captures_spec(RUBY_MODULE_RE@, ls[m]) is None {
        let p = choose|p: int|
            0 <= p < k && regex_captures_spec(RUBY_PRIVATE_RE@, #[trigger] ls[p]) is Some && forall|m: int|
                p < m < k ==> regex_captures_spec(RUBY_PUBLIC_RE@, #[trigger] ls[m]) is None
                    && regex_captures_spec(RUBY_CLASS_RE@, ls[m]) is None
                    && regex_captures_spec(RUBY_MODULE_RE@, ls[m]) is None;
        assert(pre[p] == ls[p]);
        assert forall|m: int| p < m < pre.len() implies regex_captures_spec(RUBY_PUBLIC_RE@, #[trigger] pre[m]) is None
            && regex_captures_spec(RUBY_CLASS_RE@, pre[m]) is None && regex_captures_spec(RUBY_MODULE_RE@, pre[m])
            is None by {
            assert(pre[m] == ls[m]);
        }
        lemma_ruby_private(pre, p);
    }
}

} // verus!
