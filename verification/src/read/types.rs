//! Data types produced by the read command.

use vstd::prelude::*;

verus! {

/// Kind of outline item
#[derive(Debug, Clone, Copy, PartialEq, Eq)]
pub enum ItemKind {
    Function,
    Struct,
    Enum,
    Trait,
    Impl,
    Class,
    Module,
    Const,
    Type,
    /// Heading level (1-6)
    Heading(u8),
    Other,
}

/// The short label shown in front of an item of this kind.
pub open spec fn icon_spec(kind: ItemKind) -> Seq<char> {
    match kind {
        ItemKind::Function => "fn"@,
        ItemKind::Struct => "struct"@,
        ItemKind::Enum => "enum"@,
        ItemKind::Trait => "trait"@,
        ItemKind::Impl => "impl"@,
        ItemKind::Class => "class"@,
        ItemKind::Module => "mod"@,
        ItemKind::Const => "const"@,
        ItemKind::Type => "type"@,
        ItemKind::Heading(n) => if n == 1 {
            "#"@
        } else if n == 2 {
            "##"@
        } else if n == 3 {
            "###"@
        } else {
            "####"@
        },
        ItemKind::Other => ""@,
    }
}

impl ItemKind {
    /// The short label shown in front of an item of this kind.
    pub fn icon(&self) -> (res: &'static str)
        ensures
            res@ == icon_spec(*self),
    {
        match self {
            ItemKind::Function => "fn",
            ItemKind::Struct => "struct",
            ItemKind::Enum => "enum",
            ItemKind::Trait => "trait",
            ItemKind::Impl => "impl",
            ItemKind::Class => "class",
            ItemKind::Module => "mod",
            ItemKind::Const => "const",
            ItemKind::Type => "type",
            ItemKind::Heading(n) => {
                if *n == 1 {
                    "#"
                } else if *n == 2 {
                    "##"
                } else if *n == 3 {
                    "###"
                } else {
                    "####"
                }
            },
            ItemKind::Other => "",
        }
    }
}

/// An item in a file outline (function, struct, class, heading, etc.)
#[derive(Debug, Clone, PartialEq)]
pub struct OutlineItem {
    /// Line number where this item starts (1-indexed)
    pub line: usize,
    /// The signature or heading text
    pub text: String,
    /// Indent level (0 for top-level)
    pub level: usize,
    /// Kind of item
    pub kind: ItemKind,
}

/// The mathematical content of an outline item.
pub struct ItemView {
    pub line: nat,
    pub text: Seq<char>,
    pub level: nat,
    pub kind: ItemKind,
}

impl View for OutlineItem {
    type V = ItemView;

    open spec fn view(&self) -> ItemView {
        ItemView { line: self.line as nat, text: self.text@, level: self.level as nat, kind: self.kind }
    }
}

/// The views of a sequence of outline items.
pub open spec fn items_view(v: Seq<OutlineItem>) -> Seq<ItemView> {
    v.map_values(|i: OutlineItem| i@)
}

impl OutlineItem {
    pub fn new(line: usize, text: String, level: usize, kind: ItemKind) -> (res: Self)
        ensures
            res.line == line,
            res.text == text,
            res.level == level,
            res.kind == kind,
    {
        OutlineItem { line, text, level, kind }
    }
}

/// File outline (collection of items)
#[derive(Debug, Clone, Default)]
pub struct FileOutline {
    pub items: Vec<OutlineItem>,
}

impl View for FileOutline {
    type V = Seq<ItemView>;

    open spec fn view(&self) -> Seq<ItemView> {
        items_view(self.items@)
    }
}

impl FileOutline {
    pub fn new() -> (res: Self)
        ensures
            res.items@.len() == 0,
    {
        FileOutline { items: Vec::new() }
    }

    pub fn push(&mut self, item: OutlineItem)
        ensures
            final(self).items@ == old(self).items@.push(item),
    {
        self.items.push(item);
    }

    pub fn is_empty(&self) -> (b: bool)
        ensures
            b == (self.items@.len() == 0),
    {
        self.items.len() == 0
    }

    pub fn len(&self) -> (n: usize)
        ensures
            n == self.items@.len(),
    {
        self.items.len()
    }
}

/// Result of reading a file with options
#[derive(Debug, Clone)]
pub enum ReadOutput {
    /// Full file content
    Full(String),
    /// File outline (signatures)
    Outline(FileOutline),
    /// Public interface only
    Interface(Vec<OutlineItem>),
    /// Lines around a specific line
    Around { lines: Vec<(usize, String)>, center: usize, total_lines: usize },
    /// Git diff output
    Diff(String),
}

} // verus!
