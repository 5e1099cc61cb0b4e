//! Which lines a log view shows, and how a followed log is tailed.

use vstd::prelude::*;
use crate::text::{chars_of, contains, contains_exec, sv};

verus! {

/// Where the last `count` of `len` lines begin.
pub open spec fn tail_start(len: nat, count: nat) -> nat {
    if len > count {
        (len - count) as nat
    } else {
        0
    }
}

/// The pattern of an optional `--grep`.
pub open spec fn pattern_view(grep: Option<&str>) -> Option<Seq<char>> {
    match grep {
        Some(p) => Some(p@),
        None => None,
    }
}

/// The lines that contain the pattern (all of them when there is none).
pub open spec fn grep_kept(ls: Seq<Seq<char>>, grep: Option<Seq<char>>) -> Seq<Seq<char>>
    decreases ls.len(),
{
    if ls.len() == 0 {
        seq![]
    } else {
        let rest = grep_kept(ls.drop_last(), grep);
        let keep = match grep {
            Some(p) => contains(ls.last(), p),
            None => true,
        };
        if keep {
            rest.push(ls.last())
        } else {
            rest
        }
    }
}

/// The lines of `lines` that contain `grep`, in order.
pub fn grep_lines(lines: &[String], grep: Option<&str>) -> (res: Vec<String>)
    ensures
        sv(res@) == grep_kept(sv(lines@), pattern_view(grep)),
{
    let pattern = match grep {
        Some(p) => Some(chars_of(p)),
        None => None,
    };
    let mut res: Vec<String> = Vec::new();
    let mut i: usize = 0;
    while i < lines.len()
        invariant
            i <= lines.len(),
            pattern matches Some(p) ==> pattern_view(grep) == Some(p@),
            pattern is None ==> grep is None,
            sv(res@) == grep_kept(sv(lines@).take(i as int), pattern_view(grep)),
        decreases lines.len() - i,
    {
        assert(sv(lines@).take(i + 1).drop_last() =~= sv(lines@).take(i as int));
        let keep = match &pattern {
            Some(p) => contains_exec(&chars_of(lines[i].as_str()), p),
            None => true,
        };
        let ghost before = res@;
        if keep {
            res.push(lines[i].clone());
            assert(sv(res@) =~= sv(before).push(lines@[i as int]@));
        }
        i = i + 1;
    }
    assert(sv(lines@).take(lines.len() as int) =~= sv(lines@));
    res
}

/// The lines a view shows first: of the last `count` lines, those that
/// contain `grep`; and how many lines that window held.
pub fn tail_lines(all: &Vec<String>, count: usize, grep: Option<&str>) -> (res: (Vec<String>, usize))
    ensures
        sv(res.0@) == grep_kept(
            sv(all@).skip(tail_start(all.len() as nat, count as nat) as int),
            pattern_view(grep),
        ),
        res.1 == all.len() - tail_start(all.len() as nat, count as nat),
{
    let start = all.len().saturating_sub(count);
    let window = vstd::slice::slice_subrange(all.as_slice(), start, all.len());
    assert(sv(window@) =~= sv(all@).skip(start as int));
    (grep_lines(window, grep), all.len() - start)
}

/// Where a followed log stands: its size at the last look, and how far it
/// has been shown.
#[derive(Debug, Clone, Copy, PartialEq, Eq, Structural)]
pub struct TailState {
    pub last_size: u64,
    pub last_pos: u64,
}

/// What to do after a look at the file's size.
#[derive(Debug, Clone, Copy, PartialEq, Eq, Structural)]
pub enum TailAction {
    /// Show the lines from this byte offset to the end.
    ReadFrom(u64),
    /// Nothing new to show.
    Wait,
}

/// The state of a log whose first `size` bytes have been shown.
pub fn tail_start_state(size: u64) -> (res: TailState)
    ensures
        res == (TailState { last_size: size, last_pos: size }),
{
    TailState { last_size: size, last_pos: size }
}

/// One look at a followed log: growth past what was shown is read from
/// there; a file that shrank was truncated or rotated and is shown again
/// from the start at the next growth.
pub fn tail_step(state: TailState, current_size: u64) -> (res: (TailState, TailAction))
    ensures
        current_size > state.last_pos ==> res == (
        TailState { last_size: current_size, last_pos: current_size },
        TailAction::ReadFrom(state.last_pos),
        ),
        current_size <= state.last_pos && current_size < state.last_size ==> res == (
        TailState { last_size: current_size, last_pos: 0 },
        TailAction::Wait,
        ),
        current_size <= state.last_pos && current_size >= state.last_size ==> res == (
        TailState { last_size: current_size, last_pos: state.last_pos },
        TailAction::Wait,
        ),
{
    if current_size > state.last_pos {
        (TailState { last_size: current_size, last_pos: current_size }, TailAction::ReadFrom(state.last_pos))
    } else if current_size < state.last_size {
        (TailState { last_size: current_size, last_pos: 0 }, TailAction::Wait)
    } else {
        (TailState { last_size: current_size, last_pos: state.last_pos }, TailAction::Wait)
    }
}

/// A `--grep` keeps exactly the lines that contain the pattern, in their
/// order; without one every line is kept.
pub proof fn lemma_grep_filters(ls: Seq<Seq<char>>, grep: Option<Seq<char>>)
    ensures
        grep matches Some(p) ==> grep_kept(ls, grep) == ls.filter(|l: Seq<char>| contains(l, p)),
        grep is None ==> grep_kept(ls, grep) == ls,
    decreases ls.len(),
{
    if ls.len() > 0 {
        lemma_grep_filters(ls.drop_last(), grep);
        reveal(Seq::filter);
        if let Some(p) = grep {
            assert(ls.filter(|l: Seq<char>| contains(l, p)) == {
                let sub = ls.drop_last().filter(|l: Seq<char>| contains(l, p));
                if contains(ls.last(), p) { sub.push(ls.last()) } else { sub }
            });
        } else {
            assert(ls.drop_last().push(ls.last()) =~= ls);
        }
    }
}

/// The first view shows the last `count` lines (all of them when there are
/// fewer), filtered by the pattern.
pub proof fn lemma_tail_window(len: nat, count: nat)
    ensures
        len - tail_start(len, count) == if len < count { len } else { count },
        tail_start(len, count) <= len,
{
}

} // verus!
