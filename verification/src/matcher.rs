//! Regular-expression matching and path inspection used by the readers.

use vstd::prelude::*;

verus! {

/// The capture groups that the `regex` crate reports for `pattern` on
/// `text`: `None` when the pattern does not compile or does not match;
/// otherwise one entry per group, group 0 being the whole match.
pub uninterp spec fn regex_captures_spec(pattern: Seq<char>, text: Seq<char>) -> Option<Seq<Option<Seq<char>>>>;

/// The views of captured groups.
pub open spec fn groups_view(g: Seq<Option<String>>) -> Seq<Option<Seq<char>>> {
    g.map_values(|o: Option<String>| match o {
        Some(s) => Some(s@),
        None => None,
    })
}

/// `regex::Regex::new(pattern)` then `Regex::captures(text)`, each group
/// turned into an owned string. The result is named by `regex_captures_spec`;
/// the crate documents that a match always has group 0, which is stated too.
#[verifier::external_body]
pub(crate) fn regex_captures(pattern: &str, text: &str) -> (res: Option<Vec<Option<String>>>)
    ensures
        match res {
            Some(g) => regex_captures_spec(pattern@, text@) == Some(groups_view(g@)),
            None => regex_captures_spec(pattern@, text@) is None,
        },
        res matches Some(g) ==> g@.len() > 0 && g@[0] is Some,
{
    let re = regex::Regex::new(pattern).ok()?;
    let caps = re.captures(text)?;
    Some(caps.iter().map(|m| m.map(|m| m.as_str().to_string())).collect())
}

/// Every non-overlapping match of `pattern` in `text`, left to right, each as
/// its capture groups, as `Regex::captures_iter` yields them (empty when the
/// pattern does not compile).
pub uninterp spec fn regex_captures_all_spec(pattern: Seq<char>, text: Seq<char>) -> Seq<Seq<Option<Seq<char>>>>;

/// `regex::Regex::new(pattern)` then `Regex::captures_iter(text)`, each group
/// turned into an owned string. The result is named by
/// `regex_captures_all_spec`; each match has its group 0, as the crate
/// documents.
#[verifier::external_body]
pub(crate) fn regex_captures_all(pattern: &str, text: &str) -> (res: Vec<Vec<Option<String>>>)
    ensures
        res@.map_values(|g: Vec<Option<String>>| groups_view(g@)) == regex_captures_all_spec(
            pattern@,
            text@,
        ),
        forall|i: int| 0 <= i < res@.len() ==> res@[i]@.len() > 0 && (#[trigger] res@[i])@[0] is Some,
{
    match regex::Regex::new(pattern) {
        Ok(re) => re.captures_iter(text).map(|c| {
            c.iter().map(|m| m.map(|m| m.as_str().to_string())).collect()
        }).collect(),
        Err(_) => Vec::new(),
    }
}

/// The byte offsets at which the successive non-overlapping matches of
/// `pattern` in `text` start, as `Regex::find_iter` yields them (empty when
/// the pattern does not compile).
pub uninterp spec fn regex_match_starts_spec(pattern: Seq<char>, text: Seq<char>) -> Seq<usize>;

/// `regex::Regex::new(pattern)` then the `start()` of each match of
/// `Regex::find_iter(text)`. The result is named by `regex_match_starts_spec`;
/// the crate documents that every start falls on a character boundary and
/// that the matches come left to right without overlapping, so the starts
/// never decrease; both are stated too.
#[verifier::external_body]
pub(crate) fn regex_match_starts(pattern: &str, text: &str) -> (res: Vec<usize>)
    ensures
        res@ == regex_match_starts_spec(pattern@, text@),
        forall|i: int| 0 <= i < res@.len() ==> crate::text::chars_for_bytes(text@, #[trigger] res@[i] as nat) is Some,
        forall|i: int, j: int| 0 <= i <= j < res@.len() ==> res@[i] <= res@[j],
{
    match regex::Regex::new(pattern) {
        Ok(re) => re.find_iter(text).map(|m| m.start()).collect(),
        Err(_) => Vec::new(),
    }
}

/// `text` with the first match of `pattern` replaced by `replacement`, as
/// `Regex::replace` gives it; `text` itself when the pattern does not
/// compile.
pub uninterp spec fn regex_replace_spec(pattern: Seq<char>, text: Seq<char>, replacement: Seq<char>) -> Seq<char>;

/// `regex::Regex::new(pattern)` then `Regex::replace(text, replacement)`,
/// turned into an owned string. The result is named by `regex_replace_spec`.
#[verifier::external_body]
pub(crate) fn regex_replace(pattern: &str, text: &str, replacement: &str) -> (res: String)
    ensures
        res@ == regex_replace_spec(pattern@, text@, replacement@),
{
    match regex::Regex::new(pattern) {
        Ok(re) => re.replace(text, replacement).to_string(),
        Err(_) => text.to_string(),
    }
}

/// The extension of the last component of a path, as
/// `Path::extension` followed by `to_str` reports it, or empty when there is none.
pub uninterp spec fn path_extension_spec(path: Seq<char>) -> Seq<char>;

/// `std::path::Path::new(path).extension()`, converted to a string (empty
/// when absent). The result is named by `path_extension_spec`.
#[verifier::external_body]
pub(crate) fn path_extension(path: &str) -> (res: String)
    ensures
        res@ == path_extension_spec(path@),
{
    std::path::Path::new(path).extension().and_then(|e| e.to_str()).unwrap_or("").to_string()
}

} // verus!
