//! Options of the read command and the choice of what to show.

use vstd::prelude::*;
use crate::read::around::{around_spec, extract_lines_around, numbered_view, window_ok};
use crate::read::interface::{extract_interface, interface_spec};
use crate::read::outline::{extract_outline, outline_spec};
use crate::read::types::{ReadOutput, items_view};
use crate::text::{lines, chars_eq_str, chars_of};

verus! {

/// Options of the read command.
#[derive(Debug)]
pub struct ReadArgs {
    /// File path to read
    pub path: String,
    /// Show file outline (functions, structs, classes)
    pub outline: bool,
    /// Show public interface only (pub items in Rust, exports in JS)
    pub interface: bool,
    /// Show lines around a specific line number
    pub around: Option<usize>,
    /// Number of context lines for --around (default: 10)
    pub context: usize,
    /// Show git diff
    pub diff: bool,
    /// Commit to diff against (default: HEAD)
    pub commit: String,
}

impl ReadArgs {
    /// Check if any mode is active (outline, interface, around, diff)
    pub fn has_mode(&self) -> (b: bool)
        ensures
            b == (self.outline || self.interface || self.around is Some || self.diff),
    {
        self.outline || self.interface || self.around.is_some() || self.diff
    }
}

/// What the read command shows, in order of precedence.
pub enum ReadMode {
    /// Lines around the given line.
    Around(usize),
    /// The git diff against a commit (`None` for the default, HEAD).
    Diff(Option<String>),
    /// The public interface.
    Interface,
    /// The outline.
    Outline,
    /// The whole file.
    Full,
}

/// The mode the options select: `--around` wins over `--diff`, which wins
/// over `--interface`, which wins over `--outline`; the whole file otherwise.
/// A diff against `HEAD` is the default diff.
pub fn read_mode(args: &ReadArgs) -> (res: ReadMode)
    ensures
        args.around matches Some(c) ==> res == ReadMode::Around(c),
        args.around is None && args.diff ==> (res matches ReadMode::Diff(c) && (c is None
            <==> args.commit@ == "HEAD"@) && (c matches Some(s) ==> s@ == args.commit@)),
        args.around is None && !args.diff && args.interface ==> res == ReadMode::Interface,
        args.around is None && !args.diff && !args.interface && args.outline ==> res
            == ReadMode::Outline,
        args.around is None && !args.diff && !args.interface && !args.outline ==> res
            == ReadMode::Full,
{
    if let Some(center) = args.around {
        ReadMode::Around(center)
    } else if args.diff {
        let c = chars_of(args.commit.as_str());
        if chars_eq_str(&c, "HEAD") {
            ReadMode::Diff(None)
        } else {
            ReadMode::Diff(Some(args.commit.clone()))
        }
    } else if args.interface {
        ReadMode::Interface
    } else if args.outline {
        ReadMode::Outline
    } else {
        ReadMode::Full
    }
}

/// The result of a non-diff read of `content` (the file at `path`) with
/// the given options; `None` when the options ask for a diff.
pub fn read_content(args: &ReadArgs, content: String, path: &str) -> (res: Option<ReadOutput>)
    requires
        args.around matches Some(c) ==> window_ok(content@, c as nat, args.context as nat),
    ensures
        args.around is None && args.diff <==> res is None,
        args.around matches Some(c) ==> (res matches Some(ReadOutput::Around { lines: ls, center, total_lines })
            && center == c && total_lines == lines(content@).len() && numbered_view(ls@) == around_spec(
            content@,
            c as nat,
            args.context as nat,
        )),
        args.around is None && !args.diff && args.interface ==> (res matches Some(ReadOutput::Interface(items))
            && items_view(items@) == interface_spec(content@, path@)),
        args.around is None && !args.diff && !args.interface && args.outline ==> (res matches Some(ReadOutput::Outline(o))
            && o@ == outline_spec(content@, path@)),
        args.around is None && !args.diff && !args.interface && !args.outline ==> (res matches Some(ReadOutput::Full(c))
            && c@ == content@),
{
    if let Some(center) = args.around {
        let (ls, total) = extract_lines_around(content.as_str(), center, args.context);
        assert(total == 0 || center == 0 ==> numbered_view(ls@) =~= around_spec(
            content@,
            center as nat,
            args.context as nat,
        ));
        Some(ReadOutput::Around { lines: ls, center, total_lines: total })
    } else if args.diff {
        None
    } else if args.interface {
        Some(ReadOutput::Interface(extract_interface(content.as_str(), path)))
    } else if args.outline {
        Some(ReadOutput::Outline(extract_outline(content.as_str(), path)))
    } else {
        Some(ReadOutput::Full(content))
    }
}

} // verus!
