//! File outlines: the declarations and headings of a source file, by
//! language.

use vstd::prelude::*;
use crate::matcher::{path_extension, path_extension_spec, regex_captures, regex_captures_spec};
use crate::read::rules::{
    first_rule, is_private_name, lemma_first_rule_at, lemma_first_rule_line, lemma_first_rule_none,
    lemma_items_for_lines_has, lemma_items_for_lines_lacks, no_item_on, rule_item, trim_end_matches,
    Rule, Strip, group, group_byte_len, group_exec, items_for_lines, items_for_lines_exec,
};
use crate::read::types::{FileOutline, ItemKind, ItemView, OutlineItem, items_view};
use crate::text::{trim, byte_len, chars_eq_str, chars_of, lines, lines_of, string_from_chars, vv};

verus! {

pub const RUST_FN_RE: &'static str = r"^(\s*)(pub\s+)?(async\s+)?fn\s+(\w+)\s*(<[^>]+>)?\s*\([^)]*\)(\s*->\s*[^{]+)?";
pub const RUST_STRUCT_RE: &'static str = r"^(\s*)(pub\s+)?struct\s+(\w+)(<[^>]+>)?";
pub const RUST_ENUM_RE: &'static str = r"^(\s*)(pub\s+)?enum\s+(\w+)(<[^>]+>)?";
pub const RUST_TRAIT_RE: &'static str = r"^(\s*)(pub\s+)?trait\s+(\w+)(<[^>]+>)?";
pub const RUST_IMPL_RE: &'static str = r"^(\s*)impl\s*(<[^>]+>)?\s*(\w+)(<[^>]+>)?(\s+for\s+\w+)?";
pub const RUST_MOD_RE: &'static str = r"^(\s*)(pub\s+)?mod\s+(\w+)";
pub const RUST_CONST_RE: &'static str = r"^(\s*)(pub\s+)?const\s+(\w+)";
pub const RUST_TYPE_RE: &'static str = r"^(\s*)(pub\s+)?type\s+(\w+)";
pub const PY_DEF_RE: &'static str = r"^(\s*)(async\s+)?def\s+(\w+)\s*\([^)]*\)(\s*->\s*[^:]+)?";
pub const PY_CLASS_RE: &'static str = r"^(\s*)class\s+(\w+)(\([^)]*\))?";
pub const JS_FN_RE: &'static str = r"^(\s*)(export\s+)?(async\s+)?function\s+(\w+)\s*(<[^>]+>)?\s*\([^)]*\)";
pub const JS_ARROW_RE: &'static str = r"^(\s*)(export\s+)?(const|let|var)\s+(\w+)\s*=\s*(async\s+)?\([^)]*\)\s*=>";
pub const JS_CLASS_RE: &'static str = r"^(\s*)(export\s+)?class\s+(\w+)(\s+extends\s+\w+)?";
pub const JS_METHOD_RE: &'static str = r"^(\s*)(async\s+)?(\w+)\s*\([^)]*\)\s*\{";
pub const RUBY_DEF_RE: &'static str = r"^(\s*)def\s+(\w+[?!=]?)(\([^)]*\))?";
pub const RUBY_CLASS_RE: &'static str = r"^(\s*)class\s+(\w+)(\s*<\s*\w+)?";
pub const RUBY_MODULE_RE: &'static str = r"^(\s*)module\s+(\w+)";
pub const GO_FUNC_RE: &'static str = r"^func\s+(\([^)]+\)\s+)?(\w+)\s*\([^)]*\)(\s*\([^)]*\)|\s*\w+)?";
pub const GO_STRUCT_RE: &'static str = r"^type\s+(\w+)\s+struct";
pub const GO_INTERFACE_RE: &'static str = r"^type\s+(\w+)\s+interface";
pub const MD_HEADING_RE: &'static str = r"^(#{1,6})\s+(.+)$";

/// A rule that keeps every match, at the level its indent gives.
pub open spec fn plain(pattern: &'static str, kind: ItemKind, strip: Strip, unit: usize) -> Rule {
    Rule { pattern, kind, strip, unit, min_indent: 0, max_indent: usize::MAX, name_group: 0 }
}

fn plain_exec(pattern: &'static str, kind: ItemKind, strip: Strip, unit: usize) -> (r: Rule)
    ensures
        r == plain(pattern, kind, strip, unit),
{
    Rule { pattern, kind, strip, unit, min_indent: 0, max_indent: usize::MAX, name_group: 0 }
}

/// Rust: functions, structs, enums, traits, impls, modules, constants, type aliases.
pub open spec fn rust_outline_rules() -> Seq<Rule> {
    seq![
        plain(RUST_FN_RE, ItemKind::Function, Strip::TrimEndChar('{'), 4),
        plain(RUST_STRUCT_RE, ItemKind::Struct, Strip::Trim, 4),
        plain(RUST_ENUM_RE, ItemKind::Enum, Strip::Trim, 4),
        plain(RUST_TRAIT_RE, ItemKind::Trait, Strip::Trim, 4),
        plain(RUST_IMPL_RE, ItemKind::Impl, Strip::Trim, 4),
        plain(RUST_MOD_RE, ItemKind::Module, Strip::Trim, 4),
        plain(RUST_CONST_RE, ItemKind::Const, Strip::Trim, 4),
        plain(RUST_TYPE_RE, ItemKind::Type, Strip::Trim, 4),
    ]
}

/// Python: functions and classes.
pub open spec fn python_outline_rules() -> Seq<Rule> {
    seq![
        plain(PY_DEF_RE, ItemKind::Function, Strip::TrimEndChar(':'), 4),
        plain(PY_CLASS_RE, ItemKind::Class, Strip::TrimEndChar(':'), 4),
    ]
}

/// JavaScript and TypeScript: functions, arrow functions, classes, and
/// indented methods.
pub open spec fn js_outline_rules() -> Seq<Rule> {
    seq![
        plain(JS_FN_RE, ItemKind::Function, Strip::Trim, 2),
        plain(JS_ARROW_RE, ItemKind::Function, Strip::TrimEndArrow, 2),
        plain(JS_CLASS_RE, ItemKind::Class, Strip::Trim, 2),
        Rule {
            pattern: JS_METHOD_RE,
            kind: ItemKind::Function,
            strip: Strip::TrimEndChar('{'),
            unit: 2,
            min_indent: 1,
            max_indent: usize::MAX,
            name_group: 0,
        },
    ]
}

/// Ruby: methods, classes, modules.
pub open spec fn ruby_outline_rules() -> Seq<Rule> {
    seq![
        plain(RUBY_DEF_RE, ItemKind::Function, Strip::Trim, 2),
        plain(RUBY_CLASS_RE, ItemKind::Class, Strip::Trim, 2),
        plain(RUBY_MODULE_RE, ItemKind::Module, Strip::Trim, 2),
    ]
}

/// Go: functions, struct types, interface types, all at level 0.
pub open spec fn go_outline_rules() -> Seq<Rule> {
    seq![
        plain(GO_FUNC_RE, ItemKind::Function, Strip::Trim, 0),
        plain(GO_STRUCT_RE, ItemKind::Struct, Strip::Trim, 0),
        plain(GO_INTERFACE_RE, ItemKind::Trait, Strip::Trim, 0),
    ]
}

fn rust_outline_rules_exec() -> (r: Vec<Rule>)
    ensures
        r@ == rust_outline_rules(),
{
    let mut r: Vec<Rule> = Vec::new();
    r.push(plain_exec(RUST_FN_RE, ItemKind::Function, Strip::TrimEndChar('{'), 4));
    r.push(plain_exec(RUST_STRUCT_RE, ItemKind::Struct, Strip::Trim, 4));
    r.push(plain_exec(RUST_ENUM_RE, ItemKind::Enum, Strip::Trim, 4));
    r.push(plain_exec(RUST_TRAIT_RE, ItemKind::Trait, Strip::Trim, 4));
    r.push(plain_exec(RUST_IMPL_RE, ItemKind::Impl, Strip::Trim, 4));
    r.push(plain_exec(RUST_MOD_RE, ItemKind::Module, Strip::Trim, 4));
    r.push(plain_exec(RUST_CONST_RE, ItemKind::Const, Strip::Trim, 4));
    r.push(plain_exec(RUST_TYPE_RE, ItemKind::Type, Strip::Trim, 4));
    assert(r@ =~= rust_outline_rules());
    r
}

fn python_outline_rules_exec() -> (r: Vec<Rule>)
    ensures
        r@ == python_outline_rules(),
{
    let mut r: Vec<Rule> = Vec::new();
    r.push(plain_exec(PY_DEF_RE, ItemKind::Function, Strip::TrimEndChar(':'), 4));
    r.push(plain_exec(PY_CLASS_RE, ItemKind::Class, Strip::TrimEndChar(':'), 4));
    assert(r@ =~= python_outline_rules());
    r
}

fn js_outline_rules_exec() -> (r: Vec<Rule>)
    ensures
        r@ == js_outline_rules(),
{
    let mut r: Vec<Rule> = Vec::new();
    r.push(plain_exec(JS_FN_RE, ItemKind::Function, Strip::Trim, 2));
    r.push(plain_exec(JS_ARROW_RE, ItemKind::Function, Strip::TrimEndArrow, 2));
    r.push(plain_exec(JS_CLASS_RE, ItemKind::Class, Strip::Trim, 2));
    r.push(
        Rule {
            pattern: JS_METHOD_RE,
            kind: ItemKind::Function,
            strip: Strip::TrimEndChar('{'),
            unit: 2,
            min_indent: 1,
            max_indent: usize::MAX,
            name_group: 0,
        },
    );
    assert(r@ =~= js_outline_rules());
    r
}

fn ruby_outline_rules_exec() -> (r: Vec<Rule>)
    ensures
        r@ == ruby_outline_rules(),
{
    let mut r: Vec<Rule> = Vec::new();
    r.push(plain_exec(RUBY_DEF_RE, ItemKind::Function, Strip::Trim, 2));
    r.push(plain_exec(RUBY_CLASS_RE, ItemKind::Class, Strip::Trim, 2));
    r.push(plain_exec(RUBY_MODULE_RE, ItemKind::Module, Strip::Trim, 2));
    assert(r@ =~= ruby_outline_rules());
    r
}

fn go_outline_rules_exec() -> (r: Vec<Rule>)
    ensures
        r@ == go_outline_rules(),
{
    let mut r: Vec<Rule> = Vec::new();
    r.push(plain_exec(GO_FUNC_RE, ItemKind::Function, Strip::Trim, 0));
    r.push(plain_exec(GO_STRUCT_RE, ItemKind::Struct, Strip::Trim, 0));
    r.push(plain_exec(GO_INTERFACE_RE, ItemKind::Trait, Strip::Trim, 0));
    assert(r@ =~= go_outline_rules());
    r
}

/// The heading on one Markdown line: `#`..`######`, white space, text. The
/// level is the number of `#`; the text is kept as written.
pub open spec fn md_line_items(line: Seq<char>, num: nat) -> Seq<ItemView> {
    match regex_captures_spec(MD_HEADING_RE@, line) {
        Some(g) => {
            let lv = byte_len(group(g, 1)) as u8;
            if lv == 0 {
                seq![]
            } else {
                seq![ItemView { line: num, text: group(g, 2), level: (lv - 1) as nat, kind: ItemKind::Heading(lv) }]
            }
        },
        None => seq![],
    }
}

/// The headings of a Markdown file, in line order.
pub open spec fn md_items(ls: Seq<Seq<char>>) -> Seq<ItemView>
    decreases ls.len(),
{
    if ls.len() == 0 {
        seq![]
    } else {
        md_items(ls.drop_last()) + md_line_items(ls.last(), ls.len())
    }
}

fn md_items_exec(ls: &Vec<Vec<char>>) -> (res: Vec<OutlineItem>)
    ensures
        items_view(res@) == md_items(vv(ls@)),
{
    let mut res: Vec<OutlineItem> = Vec::new();
    let mut i: usize = 0;
    while i < ls.len()
        invariant
            i <= ls.len(),
            items_view(res@) == md_items(vv(ls@).take(i as int)),
        decreases ls.len() - i,
    {
        let line = string_from_chars(&ls[i]);
        let ghost before = res@;
        assert(vv(ls@).take(i + 1).drop_last() =~= vv(ls@).take(i as int));
        assert(vv(ls@).take(i + 1).last() == ls@[i as int]@);
        match regex_captures(MD_HEADING_RE, line.as_str()) {
            Some(g) => {
                let lv = group_byte_len(&g, 1) as u8;
                if lv != 0 {
                    let text = group_exec(&g, 2);
                    let item = OutlineItem {
                        line: i + 1,
                        text: string_from_chars(&text),
                        level: (lv - 1) as usize,
                        kind: ItemKind::Heading(lv),
                    };
                    res.push(item);
                    assert(items_view(res@) =~= items_view(before).push(item@));
                } else {
                    assert(items_view(res@) =~= items_view(before) + Seq::<ItemView>::empty());
                }
            },
            None => {
                assert(items_view(res@) =~= items_view(before) + Seq::<ItemView>::empty());
            },
        }
        i = i + 1;
    }
    assert(vv(ls@).take(ls.len() as int) =~= vv(ls@));
    res
}

/// The outline of `content` for a file named `path`, by extension: `rs`,
/// `py`, `js`/`ts`/`jsx`/`tsx`/`mjs`, `rb`, `go`, `md`/`markdown`; empty for
/// any other extension.
pub open spec fn outline_spec(content: Seq<char>, path: Seq<char>) -> Seq<ItemView> {
    let ext = path_extension_spec(path);
    let ls = lines(content);
    if ext == "rs"@ {
        items_for_lines(rust_outline_rules(), ls)
    } else if ext == "py"@ {
        items_for_lines(python_outline_rules(), ls)
    } else if ext == "js"@ || ext == "ts"@ || ext == "jsx"@ || ext == "tsx"@ || ext == "mjs"@ {
        items_for_lines(js_outline_rules(), ls)
    } else if ext == "rb"@ {
        items_for_lines(ruby_outline_rules(), ls)
    } else if ext == "go"@ {
        items_for_lines(go_outline_rules(), ls)
    } else if ext == "md"@ || ext == "markdown"@ {
        md_items(ls)
    } else {
        seq![]
    }
}

/// The outline of a Rust file: functions, structs, enums, traits, impls, modules, constants and type aliases.
fn extract_rust_outline(content: &str) -> (res: Vec<OutlineItem>)
    ensures
        items_view(res@) == items_for_lines(rust_outline_rules(), lines(content@)),
{
    let cs = chars_of(content);
    let ls = lines_of(&cs);
    items_for_lines_exec(&rust_outline_rules_exec(), &ls)
}

/// The outline of a Python file: functions and classes.
fn extract_python_outline(content: &str) -> (res: Vec<OutlineItem>)
    ensures
        items_view(res@) == items_for_lines(python_outline_rules(), lines(content@)),
{
    let cs = chars_of(content);
    let ls = lines_of(&cs);
    items_for_lines_exec(&python_outline_rules_exec(), &ls)
}

/// The outline of a JavaScript or TypeScript file: functions, arrow functions, classes and methods.
fn extract_js_outline(content: &str) -> (res: Vec<OutlineItem>)
    ensures
        items_view(res@) == items_for_lines(js_outline_rules(), lines(content@)),
{
    let cs = chars_of(content);
    let ls = lines_of(&cs);
    items_for_lines_exec(&js_outline_rules_exec(), &ls)
}

/// The outline of a Ruby file: methods, classes and modules.
fn extract_ruby_outline(content: &str) -> (res: Vec<OutlineItem>)
    ensures
        items_view(res@) == items_for_lines(ruby_outline_rules(), lines(content@)),
{
    let cs = chars_of(content);
    let ls = lines_of(&cs);
    items_for_lines_exec(&ruby_outline_rules_exec(), &ls)
}

/// The outline of a Go file: functions, structs and interfaces.
fn extract_go_outline(content: &str) -> (res: Vec<OutlineItem>)
    ensures
        items_view(res@) == items_for_lines(go_outline_rules(), lines(content@)),
{
    let cs = chars_of(content);
    let ls = lines_of(&cs);
    items_for_lines_exec(&go_outline_rules_exec(), &ls)
}

/// The headings of a Markdown file.
fn extract_markdown_outline(content: &str) -> (res: Vec<OutlineItem>)
    ensures
        items_view(res@) == md_items(lines(content@)),
{
    let cs = chars_of(content);
    let ls = lines_of(&cs);
    md_items_exec(&ls)
}

/// Extract outline from file content based on extension
pub fn extract_outline(content: &str, path: &str) -> (res: FileOutline)
    ensures
        res@ == outline_spec(content@, path@),
{
    let ext_s = path_extension(path);
    let ext = chars_of(ext_s.as_str());
    let items = if chars_eq_str(&ext, "rs") {
        extract_rust_outline(content)
    } else if chars_eq_str(&ext, "py") {
        extract_python_outline(content)
    } else if chars_eq_str(&ext, "js") || chars_eq_str(&ext, "ts") || chars_eq_str(&ext, "jsx")
        || chars_eq_str(&ext, "tsx") || chars_eq_str(&ext, "mjs") {
        extract_js_outline(content)
    } else if chars_eq_str(&ext, "rb") {
        extract_ruby_outline(content)
    } else if chars_eq_str(&ext, "go") {
        extract_go_outline(content)
    } else if chars_eq_str(&ext, "md") || chars_eq_str(&ext, "markdown") {
        extract_markdown_outline(content)
    } else {
        Vec::new()
    };
    FileOutline { items }
}

/// The outline of a Rust file, line by line: the first of the function, struct, enum, trait, impl, module, constant and type-alias patterns that matches a line gives an item of that kind on that line, at one level per four bytes of indent, with the match trimmed as its text (trailing `{` dropped from a function); a line no pattern matches gives no item.
pub proof fn lemma_rust_outline_lines(content: Seq<char>, path: Seq<char>, k: int, g: Seq<Option<Seq<char>>>)
    requires
        path_extension_spec(path) == "rs"@,
        0 <= k < lines(content).len(),
    ensures
        regex_captures_spec(RUST_FN_RE@, lines(content)[k]) == Some(g) ==> outline_spec(content, path).contains((ItemView { line: (k + 1) as nat, text: trim(trim_end_matches(group(g, 0), seq!['{'])), level: byte_len(group(g, 1)) / 4, kind: ItemKind::Function })),
        regex_captures_spec(RUST_FN_RE@, lines(content)[k]) is None && regex_captures_spec(RUST_STRUCT_RE@, lines(content)[k]) == Some(g) ==> outline_spec(content, path).contains((ItemView { line: (k + 1) as nat, text: trim(group(g, 0)), level: byte_len(group(g, 1)) / 4, kind: ItemKind::Struct })),
        regex_captures_spec(RUST_FN_RE@, lines(content)[k]) is None && regex_captures_spec(RUST_STRUCT_RE@, lines(content)[k]) is None && regex_captures_spec(RUST_ENUM_RE@, lines(content)[k]) == Some(g) ==> outline_spec(content, path).contains((ItemView { line: (k + 1) as nat, text: trim(group(g, 0)), level: byte_len(group(g, 1)) / 4, kind: ItemKind::Enum })),
        regex_captures_spec(RUST_FN_RE@, lines(content)[k]) is None && regex_captures_spec(RUST_STRUCT_RE@, lines(content)[k]) is None && regex_captures_spec(RUST_ENUM_RE@, lines(content)[k]) is None && regex_captures_spec(RUST_TRAIT_RE@, lines(content)[k]) == Some(g) ==> outline_spec(content, path).contains((ItemView { line: (k + 1) as nat, text: trim(group(g, 0)), level: byte_len(group(g, 1)) / 4, kind: ItemKind::Trait })),
        regex_captures_spec(RUST_FN_RE@, lines(content)[k]) is None && regex_captures_spec(RUST_STRUCT_RE@, lines(content)[k]) is None && regex_captures_spec(RUST_ENUM_RE@, lines(content)[k]) is None && regex_captures_spec(RUST_TRAIT_RE@, lines(content)[k]) is None && regex_captures_spec(RUST_IMPL_RE@, lines(content)[k]) == Some(g) ==> outline_spec(content, path).contains((ItemView { line: (k + 1) as nat, text: trim(group(g, 0)), level: byte_len(group(g, 1)) / 4, kind: ItemKind::Impl })),
        regex_captures_spec(RUST_FN_RE@, lines(content)[k]) is None && regex_captures_spec(RUST_STRUCT_RE@, lines(content)[k]) is None && regex_captures_spec(RUST_ENUM_RE@, lines(content)[k]) is None && regex_captures_spec(RUST_TRAIT_RE@, lines(content)[k]) is None && regex_captures_spec(RUST_IMPL_RE@, lines(content)[k]) is None && regex_captures_spec(RUST_MOD_RE@, lines(content)[k]) == Some(g) ==> outline_spec(content, path).contains((ItemView { line: (k + 1) as nat, text: trim(group(g, 0)), level: byte_len(group(g, 1)) / 4, kind: ItemKind::Module })),
        regex_captures_spec(RUST_FN_RE@, lines(content)[k]) is None && regex_captures_spec(RUST_STRUCT_RE@, lines(content)[k]) is None && regex_captures_spec(RUST_ENUM_RE@, lines(content)[k]) is None && regex_captures_spec(RUST_TRAIT_RE@, lines(content)[k]) is None && regex_captures_spec(RUST_IMPL_RE@, lines(content)[k]) is None && regex_captures_spec(RUST_MOD_RE@, lines(content)[k]) is None && regex_captures_spec(RUST_CONST_RE@, lines(content)[k]) == Some(g) ==> outline_spec(content, path).contains((ItemView { line: (k + 1) as nat, text: trim(group(g, 0)), level: byte_len(group(g, 1)) / 4, kind: ItemKind::Const })),
        regex_captures_spec(RUST_FN_RE@, lines(content)[k]) is None && regex_captures_spec(RUST_STRUCT_RE@, lines(content)[k]) is None && regex_captures_spec(RUST_ENUM_RE@, lines(content)[k]) is None && regex_captures_spec(RUST_TRAIT_RE@, lines(content)[k]) is None && regex_captures_spec(RUST_IMPL_RE@, lines(content)[k]) is None && regex_captures_spec(RUST_MOD_RE@, lines(content)[k]) is None && regex_captures_spec(RUST_CONST_RE@, lines(content)[k]) is None && regex_captures_spec(RUST_TYPE_RE@, lines(content)[k]) == Some(g) ==> outline_spec(content, path).contains((ItemView { line: (k + 1) as nat, text: trim(group(g, 0)), level: byte_len(group(g, 1)) / 4, kind: ItemKind::Type })),
        regex_captures_spec(RUST_FN_RE@, lines(content)[k]) is None && regex_captures_spec(RUST_STRUCT_RE@, lines(content)[k]) is None && regex_captures_spec(RUST_ENUM_RE@, lines(content)[k]) is None && regex_captures_spec(RUST_TRAIT_RE@, lines(content)[k]) is None && regex_captures_spec(RUST_IMPL_RE@, lines(content)[k]) is None && regex_captures_spec(RUST_MOD_RE@, lines(content)[k]) is None && regex_captures_spec(RUST_CONST_RE@, lines(content)[k]) is None && regex_captures_spec(RUST_TYPE_RE@, lines(content)[k]) is None ==> no_item_on(outline_spec(content, path), (k + 1) as nat),
{
    reveal_strlit("rs");
    let ls = lines(content);
    let rules = rust_outline_rules();
    let num = (k + 1) as nat;
    assert(outline_spec(content, path) == items_for_lines(rules, ls));
    lemma_first_rule_line(rules, ls[k], num);
    if regex_captures_spec(RUST_FN_RE@, ls[k]) == Some(g) {
        lemma_first_rule_at(rules, ls[k], num, 0, g);
        match rule_item(rules[0], g, num) {
            Some(it) => {
                lemma_items_for_lines_has(rules, ls, k, it);
            },
            None => {
                lemma_items_for_lines_lacks(rules, ls, k);
            },
        }
    }
    if regex_captures_spec(RUST_FN_RE@, ls[k]) is None && regex_captures_spec(RUST_STRUCT_RE@, ls[k]) == Some(g) {
        assert forall|j: int| 0 <= j < 1 implies regex_captures_spec((#[trigger] rules[j]).pattern@, ls[k]) is None by {
            if j == 0 {}
        }
        lemma_first_rule_at(rules, ls[k], num, 1, g);
        match rule_item(rules[1], g, num) {
            Some(it) => {
                lemma_items_for_lines_has(rules, ls, k, it);
            },
            None => {
                lemma_items_for_lines_lacks(rules, ls, k);
            },
        }
    }
    if regex_captures_spec(RUST_FN_RE@, ls[k]) is None && regex_captures_spec(RUST_STRUCT_RE@, ls[k]) is None && regex_captures_spec(RUST_ENUM_RE@, ls[k]) == Some(g) {
        assert forall|j: int| 0 <= j < 2 implies regex_captures_spec((#[trigger] rules[j]).pattern@, ls[k]) is None by {
            if j == 0 {} else if j == 1 {}
        }
        lemma_first_rule_at(rules, ls[k], num, 2, g);
        match rule_item(rules[2], g, num) {
            Some(it) => {
                lemma_items_for_lines_has(rules, ls, k, it);
            },
            None => {
                lemma_items_for_lines_lacks(rules, ls, k);
            },
        }
    }
    if regex_captures_spec(RUST_FN_RE@, ls[k]) is None && regex_captures_spec(RUST_STRUCT_RE@, ls[k]) is None && regex_captures_spec(RUST_ENUM_RE@, ls[k]) is None && regex_captures_spec(RUST_TRAIT_RE@, ls[k]) == Some(g) {
        assert forall|j: int| 0 <= j < 3 implies regex_captures_spec((#[trigger] rules[j]).pattern@, ls[k]) is None by {
            if j == 0 {} else if j == 1 {} else if j == 2 {}
        }
        lemma_first_rule_at(rules, ls[k], num, 3, g);
        match rule_item(rules[3], g, num) {
            Some(it) => {
                lemma_items_for_lines_has(rules, ls, k, it);
            },
            None => {
                lemma_items_for_lines_lacks(rules, ls, k);
            },
        }
    }
    if regex_captures_spec(RUST_FN_RE@, ls[k]) is None && regex_captures_spec(RUST_STRUCT_RE@, ls[k]) is None && regex_captures_spec(RUST_ENUM_RE@, ls[k]) is None && regex_captures_spec(RUST_TRAIT_RE@, ls[k]) is None && regex_captures_spec(RUST_IMPL_RE@, ls[k]) == Some(g) {
        assert forall|j: int| 0 <= j < 4 implies regex_captures_spec((#[trigger] rules[j]).pattern@, ls[k]) is None by {
            if j == 0 {} else if j == 1 {} else if j == 2 {} else if j == 3 {}
        }
        lemma_first_rule_at(rules, ls[k], num, 4, g);
        match rule_item(rules[4], g, num) {
            Some(it) => {
                lemma_items_for_lines_has(rules, ls, k, it);
            },
            None => {
                lemma_items_for_lines_lacks(rules, ls, k);
            },
        }
    }
    if regex_captures_spec(RUST_FN_RE@, ls[k]) is None && regex_captures_spec(RUST_STRUCT_RE@, ls[k]) is None && regex_captures_spec(RUST_ENUM_RE@, ls[k]) is None && regex_captures_spec(RUST_TRAIT_RE@, ls[k]) is None && regex_captures_spec(RUST_IMPL_RE@, ls[k]) is None && regex_captures_spec(RUST_MOD_RE@, ls[k]) == Some(g) {
        assert forall|j: int| 0 <= j < 5 implies regex_captures_spec((#[trigger] rules[j]).pattern@, ls[k]) is None by {
            if j == 0 {} else if j == 1 {} else if j == 2 {} else if j == 3 {} else if j == 4 {}
        }
        lemma_first_rule_at(rules, ls[k], num, 5, g);
        match rule_item(rules[5], g, num) {
            Some(it) => {
                lemma_items_for_lines_has(rules, ls, k, it);
            },
            None => {
                lemma_items_for_lines_lacks(rules, ls, k);
            },
        }
    }
    if regex_captures_spec(RUST_FN_RE@, ls[k]) is None && regex_captures_spec(RUST_STRUCT_RE@, ls[k]) is None && regex_captures_spec(RUST_ENUM_RE@, ls[k]) is None && regex_captures_spec(RUST_TRAIT_RE@, ls[k]) is None && regex_captures_spec(RUST_IMPL_RE@, ls[k]) is None && regex_captures_spec(RUST_MOD_RE@, ls[k]) is None && regex_captures_spec(RUST_CONST_RE@, ls[k]) == Some(g) {
        assert forall|j: int| 0 <= j < 6 implies regex_captures_spec((#[trigger] rules[j]).pattern@, ls[k]) is None by {
            if j == 0 {} else if j == 1 {} else if j == 2 {} else if j == 3 {} else if j == 4 {} else if j == 5 {}
        }
        lemma_first_rule_at(rules, ls[k], num, 6, g);
        match rule_item(rules[6], g, num) {
            Some(it) => {
                lemma_items_for_lines_has(rules, ls, k, it);
            },
            None => {
                lemma_items_for_lines_lacks(rules, ls, k);
            },
        }
    }
    if regex_captures_spec(RUST_FN_RE@, ls[k]) is None && regex_captures_spec(RUST_STRUCT_RE@, ls[k]) is None && regex_captures_spec(RUST_ENUM_RE@, ls[k]) is None && regex_captures_spec(RUST_TRAIT_RE@, ls[k]) is None && regex_captures_spec(RUST_IMPL_RE@, ls[k]) is None && regex_captures_spec(RUST_MOD_RE@, ls[k]) is None && regex_captures_spec(RUST_CONST_RE@, ls[k]) is None && regex_captures_spec(RUST_TYPE_RE@, ls[k]) == Some(g) {
        assert forall|j: int| 0 <= j < 7 implies regex_captures_spec((#[trigger] rules[j]).pattern@, ls[k]) is None by {
            if j == 0 {} else if j == 1 {} else if j == 2 {} else if j == 3 {} else if j == 4 {} else if j == 5 {} else if j == 6 {}
        }
        lemma_first_rule_at(rules, ls[k], num, 7, g);
        match rule_item(rules[7], g, num) {
            Some(it) => {
                lemma_items_for_lines_has(rules, ls, k, it);
            },
            None => {
                lemma_items_for_lines_lacks(rules, ls, k);
            },
        }
    }
    if regex_captures_spec(RUST_FN_RE@, ls[k]) is None && regex_captures_spec(RUST_STRUCT_RE@, ls[k]) is None && regex_captures_spec(RUST_ENUM_RE@, ls[k]) is None && regex_captures_spec(RUST_TRAIT_RE@, ls[k]) is None && regex_captures_spec(RUST_IMPL_RE@, ls[k]) is None && regex_captures_spec(RUST_MOD_RE@, ls[k]) is None && regex_captures_spec(RUST_CONST_RE@, ls[k]) is None && regex_captures_spec(RUST_TYPE_RE@, ls[k]) is None {
        assert forall|j: int| 0 <= j < 8 implies regex_captures_spec((#[trigger] rules[j]).pattern@, ls[k]) is None by {
            if j == 0 {} else if j == 1 {} else if j == 2 {} else if j == 3 {} else if j == 4 {} else if j == 5 {} else if j == 6 {} else if j == 7 {}
        }
        lemma_first_rule_none(rules, ls[k], num);
        lemma_items_for_lines_lacks(rules, ls, k);
    }
}

/// The outline of a Python file, line by line: a `def` line gives a function and a `class` line a class, at one level per four bytes of indent, with the match (trailing `:` dropped) trimmed as its text; other lines give no item.
pub proof fn lemma_python_outline_lines(content: Seq<char>, path: Seq<char>, k: int, g: Seq<Option<Seq<char>>>)
    requires
        path_extension_spec(path) == "py"@,
        0 <= k < lines(content).len(),
    ensures
        regex_captures_spec(PY_DEF_RE@, lines(content)[k]) == Some(g) ==> outline_spec(content, path).contains((ItemView { line: (k + 1) as nat, text: trim(trim_end_matches(group(g, 0), seq![':'])), level: byte_len(group(g, 1)) / 4, kind: ItemKind::Function })),
        regex_captures_spec(PY_DEF_RE@, lines(content)[k]) is None && regex_captures_spec(PY_CLASS_RE@, lines(content)[k]) == Some(g) ==> outline_spec(content, path).contains((ItemView { line: (k + 1) as nat, text: trim(trim_end_matches(group(g, 0), seq![':'])), level: byte_len(group(g, 1)) / 4, kind: ItemKind::Class })),
        regex_captures_spec(PY_DEF_RE@, lines(content)[k]) is None && regex_captures_spec(PY_CLASS_RE@, lines(content)[k]) is None ==> no_item_on(outline_spec(content, path), (k + 1) as nat),
{
    reveal_strlit("py");
    reveal_strlit("rs");
    assert("py"@ != "rs"@) by { assert("py"@[0] != "rs"@[0]); }
    let ls = lines(content);
    let rules = python_outline_rules();
    let num = (k + 1) as nat;
    assert(outline_spec(content, path) == items_for_lines(rules, ls));
    lemma_first_rule_line(rules, ls[k], num);
    if regex_captures_spec(PY_DEF_RE@, ls[k]) == Some(g) {
        lemma_first_rule_at(rules, ls[k], num, 0, g);
        match rule_item(rules[0], g, num) {
            Some(it) => {
                lemma_items_for_lines_has(rules, ls, k, it);
            },
            None => {
                lemma_items_for_lines_lacks(rules, ls, k);
            },
        }
    }
    if regex_captures_spec(PY_DEF_RE@, ls[k]) is None && regex_captures_spec(PY_CLASS_RE@, ls[k]) == Some(g) {
        assert forall|j: int| 0 <= j < 1 implies regex_captures_spec((#[trigger] rules[j]).pattern@, ls[k]) is None by {
            if j == 0 {}
        }
        lemma_first_rule_at(rules, ls[k], num, 1, g);
        match rule_item(rules[1], g, num) {
            Some(it) => {
                lemma_items_for_lines_has(rules, ls, k, it);
            },
            None => {
                lemma_items_for_lines_lacks(rules, ls, k);
            },
        }
    }
    if regex_captures_spec(PY_DEF_RE@, ls[k]) is None && regex_captures_spec(PY_CLASS_RE@, ls[k]) is None {
        assert forall|j: int| 0 <= j < 2 implies regex_captures_spec((#[trigger] rules[j]).pattern@, ls[k]) is None by {
            if j == 0 {} else if j == 1 {}
        }
        lemma_first_rule_none(rules, ls[k], num);
        lemma_items_for_lines_lacks(rules, ls, k);
    }
}

/// The outline of a JavaScript or TypeScript file, line by line: a function, an arrow function (trailing `=>` dropped), a class, or, on an indented line that none of those match, a method (trailing `{` dropped) gives an item at one level per two bytes of indent, with the match trimmed as its text; an unindented method-like line and a line no pattern matches give no item.
pub proof fn lemma_js_outline_lines(content: Seq<char>, path: Seq<char>, k: int, g: Seq<Option<Seq<char>>>)
    requires
        path_extension_spec(path) == "js"@ || path_extension_spec(path) == "ts"@ || path_extension_spec(path) == "jsx"@ || path_extension_spec(path) == "tsx"@ || path_extension_spec(path) == "mjs"@,
        0 <= k < lines(content).len(),
    ensures
        regex_captures_spec(JS_FN_RE@, lines(content)[k]) == Some(g) ==> outline_spec(content, path).contains((ItemView { line: (k + 1) as nat, text: trim(group(g, 0)), level: byte_len(group(g, 1)) / 2, kind: ItemKind::Function })),
        regex_captures_spec(JS_FN_RE@, lines(content)[k]) is None && regex_captures_spec(JS_ARROW_RE@, lines(content)[k]) == Some(g) ==> outline_spec(content, path).contains((ItemView { line: (k + 1) as nat, text: trim(trim_end_matches(group(g, 0), seq!['=', '>'])), level: byte_len(group(g, 1)) / 2, kind: ItemKind::Function })),
        regex_captures_spec(JS_FN_RE@, lines(content)[k]) is None && regex_captures_spec(JS_ARROW_RE@, lines(content)[k]) is None && regex_captures_spec(JS_CLASS_RE@, lines(content)[k]) == Some(g) ==> outline_spec(content, path).contains((ItemView { line: (k + 1) as nat, text: trim(group(g, 0)), level: byte_len(group(g, 1)) / 2, kind: ItemKind::Class })),
        regex_captures_spec(JS_FN_RE@, lines(content)[k]) is None && regex_captures_spec(JS_ARROW_RE@, lines(content)[k]) is None && regex_captures_spec(JS_CLASS_RE@, lines(content)[k]) is None && regex_captures_spec(JS_METHOD_RE@, lines(content)[k]) == Some(g) && byte_len(group(g, 1)) >= 1 ==> outline_spec(content, path).contains((ItemView { line: (k + 1) as nat, text: trim(trim_end_matches(group(g, 0), seq!['{'])), level: byte_len(group(g, 1)) / 2, kind: ItemKind::Function })),
        regex_captures_spec(JS_FN_RE@, lines(content)[k]) is None && regex_captures_spec(JS_ARROW_RE@, lines(content)[k]) is None && regex_captures_spec(JS_CLASS_RE@, lines(content)[k]) is None && regex_captures_spec(JS_METHOD_RE@, lines(content)[k]) == Some(g) && !(byte_len(group(g, 1)) >= 1) ==> no_item_on(outline_spec(content, path), (k + 1) as nat),
        regex_captures_spec(JS_FN_RE@, lines(content)[k]) is None && regex_captures_spec(JS_ARROW_RE@, lines(content)[k]) is None && regex_captures_spec(JS_CLASS_RE@, lines(content)[k]) is None && regex_captures_spec(JS_METHOD_RE@, lines(content)[k]) is None ==> no_item_on(outline_spec(content, path), (k + 1) as nat),
{
    reveal_strlit("js");
    reveal_strlit("jsx");
    reveal_strlit("mjs");
    reveal_strlit("py");
    reveal_strlit("rs");
    reveal_strlit("ts");
    reveal_strlit("tsx");
    assert("js"@ != "rs"@) by { assert("js"@[0] != "rs"@[0]); }
    assert("js"@ != "py"@) by { assert("js"@[0] != "py"@[0]); }
    assert("ts"@ != "rs"@) by { assert("ts"@[0] != "rs"@[0]); }
    assert("ts"@ != "py"@) by { assert("ts"@[0] != "py"@[0]); }
    assert("jsx"@ != "rs"@) by { assert("jsx"@.len() != "rs"@.len()); }
    assert("jsx"@ != "py"@) by { assert("jsx"@.len() != "py"@.len()); }
    assert("tsx"@ != "rs"@) by { assert("tsx"@.len() != "rs"@.len()); }
    assert("tsx"@ != "py"@) by { assert("tsx"@.len() != "py"@.len()); }
    assert("mjs"@ != "rs"@) by { assert("mjs"@.len() != "rs"@.len()); }
    assert("mjs"@ != "py"@) by { assert("mjs"@.len() != "py"@.len()); }
    let ls = lines(content);
    let rules = js_outline_rules();
    let num = (k + 1) as nat;
    assert(outline_spec(content, path) == items_for_lines(rules, ls));
    lemma_first_rule_line(rules, ls[k], num);
    if regex_captures_spec(JS_FN_RE@, ls[k]) == Some(g) {
        lemma_first_rule_at(rules, ls[k], num, 0, g);
        match rule_item(rules[0], g, num) {
            Some(it) => {
                lemma_items_for_lines_has(rules, ls, k, it);
            },
            None => {
                lemma_items_for_lines_lacks(rules, ls, k);
            },
        }
    }
    if regex_captures_spec(JS_FN_RE@, ls[k]) is None && regex_captures_spec(JS_ARROW_RE@, ls[k]) == Some(g) {
        assert forall|j: int| 0 <= j < 1 implies regex_captures_spec((#[trigger] rules[j]).pattern@, ls[k]) is None by {
            if j == 0 {}
        }
        lemma_first_rule_at(rules, ls[k], num, 1, g);
        match rule_item(rules[1], g, num) {
            Some(it) => {
                lemma_items_for_lines_has(rules, ls, k, it);
            },
            None => {
                lemma_items_for_lines_lacks(rules, ls, k);
            },
        }
    }
    if regex_captures_spec(JS_FN_RE@, ls[k]) is None && regex_captures_spec(JS_ARROW_RE@, ls[k]) is None && regex_captures_spec(JS_CLASS_RE@, ls[k]) == Some(g) {
        assert forall|j: int| 0 <= j < 2 implies regex_captures_spec((#[trigger] rules[j]).pattern@, ls[k]) is None by {
            if j == 0 {} else if j == 1 {}
        }
        lemma_first_rule_at(rules, ls[k], num, 2, g);
        match rule_item(rules[2], g, num) {
            Some(it) => {
                lemma_items_for_lines_has(rules, ls, k, it);
            },
            None => {
                lemma_items_for_lines_lacks(rules, ls, k);
            },
        }
    }
    if regex_captures_spec(JS_FN_RE@, ls[k]) is None && regex_captures_spec(JS_ARROW_RE@, ls[k]) is None && regex_captures_spec(JS_CLASS_RE@, ls[k]) is None && regex_captures_spec(JS_METHOD_RE@, ls[k]) == Some(g) {
        assert forall|j: int| 0 <= j < 3 implies regex_captures_spec((#[trigger] rules[j]).pattern@, ls[k]) is None by {
            if j == 0 {} else if j == 1 {} else if j == 2 {}
        }
        lemma_first_rule_at(rules, ls[k], num, 3, g);
        match rule_item(rules[3], g, num) {
            Some(it) => {
                lemma_items_for_lines_has(rules, ls, k, it);
            },
            None => {
                lemma_items_for_lines_lacks(rules, ls, k);
            },
        }
    }
    if regex_captures_spec(JS_FN_RE@, ls[k]) is None && regex_captures_spec(JS_ARROW_RE@, ls[k]) is None && regex_captures_spec(JS_CLASS_RE@, ls[k]) is None && regex_captures_spec(JS_METHOD_RE@, ls[k]) is None {
        assert forall|j: int| 0 <= j < 4 implies regex_captures_spec((#[trigger] rules[j]).pattern@, ls[k]) is None by {
            if j == 0 {} else if j == 1 {} else if j == 2 {} else if j == 3 {}
        }
        lemma_first_rule_none(rules, ls[k], num);
        lemma_items_for_lines_lacks(rules, ls, k);
    }
}

/// The outline of a Ruby file, line by line: a method, class or module line gives an item of that kind at one level per two bytes of indent, with the match trimmed as its text; other lines give no item.
pub proof fn lemma_ruby_outline_lines(content: Seq<char>, path: Seq<char>, k: int, g: Seq<Option<Seq<char>>>)
    requires
        path_extension_spec(path) == "rb"@,
        0 <= k < lines(content).len(),
    ensures
        regex_captures_spec(RUBY_DEF_RE@, lines(content)[k]) == Some(g) ==> outline_spec(content, path).contains((ItemView { line: (k + 1) as nat, text: trim(group(g, 0)), level: byte_len(group(g, 1)) / 2, kind: ItemKind::Function })),
        regex_captures_spec(RUBY_DEF_RE@, lines(content)[k]) is None && regex_captures_spec(RUBY_CLASS_RE@, lines(content)[k]) == Some(g) ==> outline_spec(content, path).contains((ItemView { line: (k + 1) as nat, text: trim(group(g, 0)), level: byte_len(group(g, 1)) / 2, kind: ItemKind::Class })),
        regex_captures_spec(RUBY_DEF_RE@, lines(content)[k]) is None && regex_captures_spec(RUBY_CLASS_RE@, lines(content)[k]) is None && regex_captures_spec(RUBY_MODULE_RE@, lines(content)[k]) == Some(g) ==> outline_spec(content, path).contains((ItemView { line: (k + 1) as nat, text: trim(group(g, 0)), level: byte_len(group(g, 1)) / 2, kind: ItemKind::Module })),
        regex_captures_spec(RUBY_DEF_RE@, lines(content)[k]) is None && regex_captures_spec(RUBY_CLASS_RE@, lines(content)[k]) is None && regex_captures_spec(RUBY_MODULE_RE@, lines(content)[k]) is None ==> no_item_on(outline_spec(content, path), (k + 1) as nat),
{
    reveal_strlit("js");
    reveal_strlit("jsx");
    reveal_strlit("mjs");
    reveal_strlit("py");
    reveal_strlit("rb");
    reveal_strlit("rs");
    reveal_strlit("ts");
    reveal_strlit("tsx");
    assert("rb"@ != "rs"@) by { assert("rb"@[1] != "rs"@[1]); }
    assert("rb"@ != "py"@) by { assert("rb"@[0] != "py"@[0]); }
    assert("rb"@ != "js"@) by { assert("rb"@[0] != "js"@[0]); }
    assert("rb"@ != "ts"@) by { assert("rb"@[0] != "ts"@[0]); }
    assert("rb"@ != "jsx"@) by { assert("rb"@.len() != "jsx"@.len()); }
    assert("rb"@ != "tsx"@) by { assert("rb"@.len() != "tsx"@.len()); }
    assert("rb"@ != "mjs"@) by { assert("rb"@.len() != "mjs"@.len()); }
    let ls = lines(content);
    let rules = ruby_outline_rules();
    let num = (k + 1) as nat;
    assert(outline_spec(content, path) == items_for_lines(rules, ls));
    lemma_first_rule_line(rules, ls[k], num);
    if regex_captures_spec(RUBY_DEF_RE@, ls[k]) == Some(g) {
        lemma_first_rule_at(rules, ls[k], num, 0, g);
        match rule_item(rules[0], g, num) {
            Some(it) => {
                lemma_items_for_lines_has(rules, ls, k, it);
            },
            None => {
                lemma_items_for_lines_lacks(rules, ls, k);
            },
        }
    }
    if regex_captures_spec(RUBY_DEF_RE@, ls[k]) is None && regex_captures_spec(RUBY_CLASS_RE@, ls[k]) == Some(g) {
        assert forall|j: int| 0 <= j < 1 implies regex_captures_spec((#[trigger] rules[j]).pattern@, ls[k]) is None by {
            if j == 0 {}
        }
        lemma_first_rule_at(rules, ls[k], num, 1, g);
        match rule_item(rules[1], g, num) {
            Some(it) => {
                lemma_items_for_lines_has(rules, ls, k, it);
            },
            None => {
                lemma_items_for_lines_lacks(rules, ls, k);
            },
        }
    }
    if regex_captures_spec(RUBY_DEF_RE@, ls[k]) is None && regex_captures_spec(RUBY_CLASS_RE@, ls[k]) is None && regex_captures_spec(RUBY_MODULE_RE@, ls[k]) == Some(g) {
        assert forall|j: int| 0 <= j < 2 implies regex_captures_spec((#[trigger] rules[j]).pattern@, ls[k]) is None by {
            if j == 0 {} else if j == 1 {}
        }
        lemma_first_rule_at(rules, ls[k], num, 2, g);
        match rule_item(rules[2], g, num) {
            Some(it) => {
                lemma_items_for_lines_has(rules, ls, k, it);
            },
            None => {
                lemma_items_for_lines_lacks(rules, ls, k);
            },
        }
    }
    if regex_captures_spec(RUBY_DEF_RE@, ls[k]) is None && regex_captures_spec(RUBY_CLASS_RE@, ls[k]) is None && regex_captures_spec(RUBY_MODULE_RE@, ls[k]) is None {
        assert forall|j: int| 0 <= j < 3 implies regex_captures_spec((#[trigger] rules[j]).pattern@, ls[k]) is None by {
            if j == 0 {} else if j == 1 {} else if j == 2 {}
        }
        lemma_first_rule_none(rules, ls[k], num);
        lemma_items_for_lines_lacks(rules, ls, k);
    }
}

/// The outline of a Go file, line by line: a function, struct type or interface type line gives an item of that kind at level 0, with the match trimmed as its text; other lines give no item.
pub proof fn lemma_go_outline_lines(content: Seq<char>, path: Seq<char>, k: int, g: Seq<Option<Seq<char>>>)
    requires
        path_extension_spec(path) == "go"@,
        0 <= k < lines(content).len(),
    ensures
        regex_captures_spec(GO_FUNC_RE@, lines(content)[k]) == Some(g) ==> outline_spec(content, path).contains((ItemView { line: (k + 1) as nat, text: trim(group(g, 0)), level: 0, kind: ItemKind::Function })),
        regex_captures_spec(GO_FUNC_RE@, lines(content)[k]) is None && regex_captures_spec(GO_STRUCT_RE@, lines(content)[k]) == Some(g) ==> outline_spec(content, path).contains((ItemView { line: (k + 1) as nat, text: trim(group(g, 0)), level: 0, kind: ItemKind::Struct })),
        regex_captures_spec(GO_FUNC_RE@, lines(content)[k]) is None && regex_captures_spec(GO_STRUCT_RE@, lines(content)[k]) is None && regex_captures_spec(GO_INTERFACE_RE@, lines(content)[k]) == Some(g) ==> outline_spec(content, path).contains((ItemView { line: (k + 1) as nat, text: trim(group(g, 0)), level: 0, kind: ItemKind::Trait })),
        regex_captures_spec(GO_FUNC_RE@, lines(content)[k]) is None && regex_captures_spec(GO_STRUCT_RE@, lines(content)[k]) is None && regex_captures_spec(GO_INTERFACE_RE@, lines(content)[k]) is None ==> no_item_on(outline_spec(content, path), (k + 1) as nat),
{
    reveal_strlit("go");
    reveal_strlit("js");
    reveal_strlit("jsx");
    reveal_strlit("mjs");
    reveal_strlit("py");
    reveal_strlit("rb");
    reveal_strlit("rs");
    reveal_strlit("ts");
    reveal_strlit("tsx");
    assert("go"@ != "rs"@) by { assert("go"@[0] != "rs"@[0]); }
    assert("go"@ != "py"@) by { assert("go"@[0] != "py"@[0]); }
    assert("go"@ != "js"@) by { assert("go"@[0] != "js"@[0]); }
    assert("go"@ != "ts"@) by { assert("go"@[0] != "ts"@[0]); }
    assert("go"@ != "jsx"@) by { assert("go"@.len() != "jsx"@.len()); }
    assert("go"@ != "tsx"@) by { assert("go"@.len() != "tsx"@.len()); }
    assert("go"@ != "mjs"@) by { assert("go"@.len() != "mjs"@.len()); }
    assert("go"@ != "rb"@) by { assert("go"@[0] != "rb"@[0]); }
    let ls = lines(content);
    let rules = go_outline_rules();
    let num = (k + 1) as nat;
    assert(outline_spec(content, path) == items_for_lines(rules, ls));
    lemma_first_rule_line(rules, ls[k], num);
    if regex_captures_spec(GO_FUNC_RE@, ls[k]) == Some(g) {
        lemma_first_rule_at(rules, ls[k], num, 0, g);
        match rule_item(rules[0], g, num) {
            Some(it) => {
                lemma_items_for_lines_has(rules, ls, k, it);
            },
            None => {
                lemma_items_for_lines_lacks(rules, ls, k);
            },
        }
    }
    if regex_captures_spec(GO_FUNC_RE@, ls[k]) is None && regex_captures_spec(GO_STRUCT_RE@, ls[k]) == Some(g) {
        assert forall|j: int| 0 <= j < 1 implies regex_captures_spec((#[trigger] rules[j]).pattern@, ls[k]) is None by {
            if j == 0 {}
        }
        lemma_first_rule_at(rules, ls[k], num, 1, g);
        match rule_item(rules[1], g, num) {
            Some(it) => {
                lemma_items_for_lines_has(rules, ls, k, it);
            },
            None => {
                lemma_items_for_lines_lacks(rules, ls, k);
            },
        }
    }
    if regex_captures_spec(GO_FUNC_RE@, ls[k]) is None && regex_captures_spec(GO_STRUCT_RE@, ls[k]) is None && regex_captures_spec(GO_INTERFACE_RE@, ls[k]) == Some(g) {
        assert forall|j: int| 0 <= j < 2 implies regex_captures_spec((#[trigger] rules[j]).pattern@, ls[k]) is None by {
            if j == 0 {} else if j == 1 {}
        }
        lemma_first_rule_at(rules, ls[k], num, 2, g);
        match rule_item(rules[2], g, num) {
            Some(it) => {
                lemma_items_for_lines_has(rules, ls, k, it);
            },
            None => {
                lemma_items_for_lines_lacks(rules, ls, k);
            },
        }
    }
    if regex_captures_spec(GO_FUNC_RE@, ls[k]) is None && regex_captures_spec(GO_STRUCT_RE@, ls[k]) is None && regex_captures_spec(GO_INTERFACE_RE@, ls[k]) is None {
        assert forall|j: int| 0 <= j < 3 implies regex_captures_spec((#[trigger] rules[j]).pattern@, ls[k]) is None by {
            if j == 0 {} else if j == 1 {} else if j == 2 {}
        }
        lemma_first_rule_none(rules, ls[k], num);
        lemma_items_for_lines_lacks(rules, ls, k);
    }
}


proof fn lemma_md_items_has(ls: Seq<Seq<char>>, k: int, it: ItemView)
    requires
        0 <= k < ls.len(),
        md_line_items(ls[k], (k + 1) as nat) == seq![it],
    ensures
        md_items(ls).contains(it),
    decreases ls.len(),
{
    let init = ls.drop_last();
    let prefix = md_items(init);
    if k == ls.len() - 1 {
        assert(md_items(ls)[prefix.len() as int] == it);
    } else {
        assert(init[k] == ls[k]);
        lemma_md_items_has(init, k, it);
        let j = choose|j: int| 0 <= j < prefix.len() && prefix[j] == it;
        assert(md_items(ls)[j] == it);
    }
}

proof fn lemma_md_items_lines(ls: Seq<Seq<char>>)
    ensures
        forall|j: int| 0 <= j < md_items(ls).len() ==> 1 <= (#[trigger] md_items(ls)[j]).line <= ls.len(),
    decreases ls.len(),
{
    if ls.len() > 0 {
        let init = ls.drop_last();
        lemma_md_items_lines(init);
        let prefix = md_items(init);
        let all = md_items(ls);
        assert forall|j: int| 0 <= j < all.len() implies 1 <= (#[trigger] all[j]).line <= ls.len() by {
            if j >= prefix.len() {
                assert(all[j] == md_line_items(ls.last(), ls.len())[j - prefix.len()]);
            } else {
                assert(all[j] == prefix[j]);
            }
        }
    }
}

proof fn lemma_md_items_lacks(ls: Seq<Seq<char>>, k: int)
    requires
        0 <= k < ls.len(),
        md_line_items(ls[k], (k + 1) as nat) == Seq::<ItemView>::empty(),
    ensures
        no_item_on(md_items(ls), (k + 1) as nat),
    decreases ls.len(),
{
    let init = ls.drop_last();
    let prefix = md_items(init);
    let all = md_items(ls);
    lemma_md_items_lines(init);
    if k == ls.len() - 1 {
        assert(all =~= prefix);
    } else {
        assert(init[k] == ls[k]);
        lemma_md_items_lacks(init, k);
        assert forall|j: int| 0 <= j < all.len() implies (#[trigger] all[j]).line != k + 1 by {
            if j >= prefix.len() {
                assert(all[j] == md_line_items(ls.last(), ls.len())[j - prefix.len()]);
            } else {
                assert(all[j] == prefix[j]);
            }
        }
    }
}

/// The outline of a Markdown file, line by line: a heading line (one to
/// six `#`, white space, text) gives a heading item whose level counts the
/// `#` (from 0 for `#`) and whose text is the heading's text; any other
/// line gives no item.
pub proof fn lemma_markdown_outline_lines(content: Seq<char>, path: Seq<char>, k: int, g: Seq<Option<Seq<char>>>)
    requires
        path_extension_spec(path) == "md"@ || path_extension_spec(path) == "markdown"@,
        0 <= k < lines(content).len(),
    ensures
        regex_captures_spec(MD_HEADING_RE@, lines(content)[k]) == Some(g) && 1 <= byte_len(group(g, 1)) <= 255
            ==> outline_spec(content, path).contains((ItemView {
            line: (k + 1) as nat,
            text: group(g, 2),
            level: (byte_len(group(g, 1)) - 1) as nat,
            kind: ItemKind::Heading(byte_len(group(g, 1)) as u8),
        })),
        regex_captures_spec(MD_HEADING_RE@, lines(content)[k]) is None ==> no_item_on(
            outline_spec(content, path),
            (k + 1) as nat,
        ),
{
    reveal_strlit("md");
    reveal_strlit("markdown");
    reveal_strlit("rs");
    reveal_strlit("py");
    reveal_strlit("js");
    reveal_strlit("ts");
    reveal_strlit("jsx");
    reveal_strlit("tsx");
    reveal_strlit("mjs");
    reveal_strlit("rb");
    reveal_strlit("go");
    assert("md"@ != "rs"@) by { assert("md"@[0] != "rs"@[0]); }
    assert("md"@ != "py"@) by { assert("md"@[0] != "py"@[0]); }
    assert("md"@ != "js"@) by { assert("md"@[0] != "js"@[0]); }
    assert("md"@ != "ts"@) by { assert("md"@[0] != "ts"@[0]); }
    assert("md"@ != "jsx"@) by { assert("md"@.len() != "jsx"@.len()); }
    assert("md"@ != "tsx"@) by { assert("md"@.len() != "tsx"@.len()); }
    assert("md"@ != "mjs"@) by { assert("md"@.len() != "mjs"@.len()); }
    assert("md"@ != "rb"@) by { assert("md"@[0] != "rb"@[0]); }
    assert("md"@ != "go"@) by { assert("md"@[0] != "go"@[0]); }
    assert("markdown"@ != "rs"@) by { assert("markdown"@.len() != "rs"@.len()); }
    assert("markdown"@ != "py"@) by { assert("markdown"@.len() != "py"@.len()); }
    assert("markdown"@ != "js"@) by { assert("markdown"@.len() != "js"@.len()); }
    assert("markdown"@ != "ts"@) by { assert("markdown"@.len() != "ts"@.len()); }
    assert("markdown"@ != "jsx"@) by { assert("markdown"@.len() != "jsx"@.len()); }
    assert("markdown"@ != "tsx"@) by { assert("markdown"@.len() != "tsx"@.len()); }
    assert("markdown"@ != "mjs"@) by { assert("markdown"@.len() != "mjs"@.len()); }
    assert("markdown"@ != "rb"@) by { assert("markdown"@.len() != "rb"@.len()); }
    assert("markdown"@ != "go"@) by { assert("markdown"@.len() != "go"@.len()); }
    let ls = lines(content);
    assert(outline_spec(content, path) == md_items(ls));
    let num = (k + 1) as nat;
    match regex_captures_spec(MD_HEADING_RE@, ls[k]) {
        Some(h) => {
            if h == g && 1 <= byte_len(group(g, 1)) <= 255 {
                let lv = byte_len(group(g, 1)) as u8;
                assert(lv as nat == byte_len(group(g, 1)));
                lemma_md_items_has(ls, k, md_line_items(ls[k], num)[0]);
            }
        },
        None => {
            lemma_md_items_lacks(ls, k);
        },
    }
}

} // verus!
