//! Session context tracking: which files have been loaded, how big they
//! are, and when they were loaded.

use vstd::prelude::*;
use crate::text::{chars_eq, chars_of, dec, dec_chars, digit, push_chars, push_str, string_from_chars};

verus! {

/// Seconds since the Unix epoch by the system clock (0 when the clock is
/// before the epoch). Nothing is stated of the value: it is the time.
#[verifier::external_body]
pub fn current_timestamp() -> (res: u64) {
    std::time::SystemTime::now().duration_since(std::time::SystemTime::UNIX_EPOCH).map(|d| d.as_secs()).unwrap_or(0)
}

/// Entry for a tracked file in the context
#[derive(Debug, Clone, PartialEq)]
pub struct ContextEntry {
    /// Absolute path to the file
    pub path: String,
    /// File size in bytes
    pub size: u64,
    /// Number of lines in the file
    pub line_count: usize,
    /// When the file was tracked (Unix timestamp)
    pub tracked_at: u64,
}

/// A copy of an entry.
pub fn copy_entry(e: &ContextEntry) -> (res: ContextEntry)
    ensures
        res == *e,
{
    ContextEntry { path: e.path.clone(), size: e.size, line_count: e.line_count, tracked_at: e.tracked_at }
}

impl ContextEntry {
    /// Create a new context entry from file metadata, stamped with the current time
    pub fn new(path: String, size: u64, line_count: usize) -> (res: Self)
        ensures
            res.path == path,
            res.size == size,
            res.line_count == line_count,
    {
        let tracked_at = current_timestamp();
        ContextEntry { path, size, line_count, tracked_at }
    }

    /// Create entry with explicit timestamp
    pub fn with_timestamp(path: String, size: u64, line_count: usize, tracked_at: u64) -> (res: Self)
        ensures
            res == (ContextEntry { path, size, line_count, tracked_at }),
    {
        ContextEntry { path, size, line_count, tracked_at }
    }
}

/// The first entry stored under `key`, if any.
pub open spec fn lookup(es: Seq<ContextEntry>, key: Seq<char>) -> Option<ContextEntry>
    decreases es.len(),
{
    if es.len() == 0 {
        None
    } else if es[0].path@ == key {
        Some(es[0])
    } else {
        lookup(es.drop_first(), key)
    }
}

/// No two entries share a path.
pub open spec fn distinct_keys(es: Seq<ContextEntry>) -> bool {
    forall|i: int, j: int| 0 <= i < es.len() && 0 <= j < es.len() && i != j ==> es[i].path@ != es[j].path@
}

/// Position of the entry stored under `key`.
pub open spec fn key_index(es: Seq<ContextEntry>, key: Seq<char>) -> Option<int> {
    if exists|i: int| 0 <= i < es.len() && es[i].path@ == key {
        Some(choose|i: int| 0 <= i < es.len() && es[i].path@ == key)
    } else {
        None
    }
}

/// The entries after tracking `e`: the entry under the same path is replaced
/// in place, or `e` is added at the end.
pub open spec fn with_entry(es: Seq<ContextEntry>, e: ContextEntry) -> Seq<ContextEntry> {
    match key_index(es, e.path@) {
        Some(i) => es.update(i, e),
        None => es.push(e),
    }
}

/// Sum of the sizes of the entries.
pub open spec fn sum_sizes(es: Seq<ContextEntry>) -> nat
    decreases es.len(),
{
    if es.len() == 0 {
        0
    } else {
        sum_sizes(es.drop_last()) + es.last().size as nat
    }
}

/// Sum of the line counts of the entries.
pub open spec fn sum_lines(es: Seq<ContextEntry>) -> nat
    decreases es.len(),
{
    if es.len() == 0 {
        0
    } else {
        sum_lines(es.drop_last()) + es.last().line_count as nat
    }
}

/// `lookup` finds the entry at a position holding the key, in a state with
/// distinct keys; and nothing where no position holds it.
pub proof fn lemma_lookup_index(es: Seq<ContextEntry>, key: Seq<char>)
    requires
        distinct_keys(es),
    ensures
        key_index(es, key) matches Some(i) ==> lookup(es, key) == Some(es[i]),
        key_index(es, key) is None ==> lookup(es, key) is None,
    decreases es.len(),
{
    if es.len() > 0 {
        let rest = es.drop_first();
        assert(distinct_keys(rest));
        lemma_lookup_index(rest, key);
        if es[0].path@ == key {
            if let Some(i) = key_index(es, key) {
                if i != 0 {
                    assert(es[i].path@ == es[0].path@);
                }
            }
        } else {
            if let Some(i) = key_index(es, key) {
                assert(rest[i - 1] == es[i]);
                assert(key_index(rest, key) is Some);
                let j = key_index(rest, key).unwrap();
                assert(es[j + 1].path@ == key);
                assert(j + 1 == i);
            } else {
                if let Some(j) = key_index(rest, key) {
                    assert(es[j + 1].path@ == key);
                }
            }
        }
    }
}

/// Complete context state for a session
#[derive(Debug, Clone, Default, PartialEq)]
pub struct ContextState {
    /// Session ID this context belongs to
    pub session_id: String,
    /// Tracked entries, at most one per path, in the order first tracked
    pub entries: Vec<ContextEntry>,
}

impl ContextState {
    /// The state's invariant: at most one entry per path.
    pub open spec fn wf(&self) -> bool {
        distinct_keys(self.entries@)
    }

    /// Create a new empty context state
    pub fn new(session_id: String) -> (res: Self)
        ensures
            res.session_id == session_id,
            res.entries@.len() == 0,
            res.wf(),
    {
        ContextState { session_id, entries: Vec::new() }
    }

    fn index_of(&self, key: &Vec<char>) -> (res: Option<usize>)
        ensures
            match res {
                Some(i) => i < self.entries@.len() && self.entries@[i as int].path@ == key@ && forall|j: int|
                    0 <= j < i ==> self.entries@[j].path@ != key@,
                None => forall|j: int| 0 <= j < self.entries@.len() ==> self.entries@[j].path@ != key@,
            },
    {
        let mut i: usize = 0;
        while i < self.entries.len()
            invariant
                i <= self.entries@.len(),
                forall|j: int| 0 <= j < i ==> self.entries@[j].path@ != key@,
            decreases self.entries@.len() - i,
        {
            let p = chars_of(self.entries[i].path.as_str());
            if chars_eq(&p, key) {
                return Some(i);
            }
            i = i + 1;
        }
        None
    }

    /// Add or update an entry
    pub fn track(&mut self, entry: ContextEntry)
        requires
            old(self).wf(),
        ensures
            final(self).wf(),
            final(self).session_id == old(self).session_id,
            final(self).entries@ == with_entry(old(self).entries@, entry),
    {
        let key = chars_of(entry.path.as_str());
        let ghost es = self.entries@;
        let ghost e = entry;
        match self.index_of(&key) {
            Some(i) => {
                self.entries.set(i, entry);
                proof {
                    let k = key_index(es, e.path@).unwrap();
                    assert(es[k].path@ == e.path@);
                    if k != i {
                        assert(es[i as int].path@ == es[k].path@);
                    }
                }
            },
            None => {
                self.entries.push(entry);
            },
        }
    }

    /// Get an entry by path
    pub fn get(&self, path: &str) -> (res: Option<&ContextEntry>)
        requires
            self.wf(),
        ensures
            match res {
                Some(e) => lookup(self.entries@, path@) == Some(*e),
                None => lookup(self.entries@, path@) is None,
            },
    {
        let key = chars_of(path);
        proof {
            lemma_lookup_index(self.entries@, path@);
        }
        match self.index_of(&key) {
            Some(i) => {
                proof {
                    let k = key_index(self.entries@, path@).unwrap();
                    if k != i {
                        assert(self.entries@[k].path@ == self.entries@[i as int].path@);
                    }
                }
                Some(&self.entries[i])
            },
            None => None,
        }
    }

    /// Check if a path is tracked
    pub fn is_tracked(&self, path: &str) -> (b: bool)
        requires
            self.wf(),
        ensures
            b == (lookup(self.entries@, path@) is Some),
    {
        self.get(path).is_some()
    }

    /// Get all entries
    pub fn all_entries(&self) -> (res: Vec<&ContextEntry>)
        ensures
            res@.len() == self.entries@.len(),
            forall|i: int| 0 <= i < res@.len() ==> *res@[i] == self.entries@[i],
    {
        let mut res: Vec<&ContextEntry> = Vec::new();
        let mut i: usize = 0;
        while i < self.entries.len()
            invariant
                i <= self.entries@.len(),
                res@.len() == i,
                forall|k: int| 0 <= k < i ==> *res@[k] == self.entries@[k],
            decreases self.entries@.len() - i,
        {
            res.push(&self.entries[i]);
            i = i + 1;
        }
        res
    }

    /// Clear all entries
    pub fn clear(&mut self)
        ensures
            final(self).entries@.len() == 0,
            final(self).session_id == old(self).session_id,
            final(self).wf(),
    {
        self.entries.clear();
    }

    /// Total tracked files
    pub fn file_count(&self) -> (n: usize)
        ensures
            n == self.entries@.len(),
    {
        self.entries.len()
    }

    /// Total bytes tracked
    pub fn total_bytes(&self) -> (n: u64)
        requires
            sum_sizes(self.entries@) <= u64::MAX,
        ensures
            n == sum_sizes(self.entries@),
    {
        let mut total: u64 = 0;
        let mut i: usize = 0;
        while i < self.entries.len()
            invariant
                i <= self.entries@.len(),
                sum_sizes(self.entries@) <= u64::MAX,
                total == sum_sizes(self.entries@.take(i as int)),
            decreases self.entries@.len() - i,
        {
            proof {
                assert(self.entries@.take(i + 1).drop_last() =~= self.entries@.take(i as int));
                lemma_sum_sizes_prefix(self.entries@, i + 1);
            }
            total = total + self.entries[i].size;
            i = i + 1;
        }
        assert(self.entries@.take(self.entries@.len() as int) =~= self.entries@);
        total
    }

    /// Total lines tracked
    pub fn total_lines(&self) -> (n: usize)
        requires
            sum_lines(self.entries@) <= usize::MAX,
        ensures
            n == sum_lines(self.entries@),
    {
        let mut total: usize = 0;
        let mut i: usize = 0;
        while i < self.entries.len()
            invariant
                i <= self.entries@.len(),
                sum_lines(self.entries@) <= usize::MAX,
                total == sum_lines(self.entries@.take(i as int)),
            decreases self.entries@.len() - i,
        {
            proof {
                assert(self.entries@.take(i + 1).drop_last() =~= self.entries@.take(i as int));
                lemma_sum_lines_prefix(self.entries@, i + 1);
            }
            total = total + self.entries[i].line_count;
            i = i + 1;
        }
        assert(self.entries@.take(self.entries@.len() as int) =~= self.entries@);
        total
    }
}

/// A prefix never sums to more than the whole.
pub proof fn lemma_sum_sizes_prefix(es: Seq<ContextEntry>, k: int)
    requires
        0 <= k <= es.len(),
    ensures
        sum_sizes(es.take(k)) <= sum_sizes(es),
    decreases es.len() - k,
{
    if k < es.len() {
        lemma_sum_sizes_prefix(es, k + 1);
        assert(es.take(k + 1).drop_last() =~= es.take(k));
    } else {
        assert(es.take(k) =~= es);
    }
}

/// A prefix never sums to more than the whole.
pub proof fn lemma_sum_lines_prefix(es: Seq<ContextEntry>, k: int)
    requires
        0 <= k <= es.len(),
    ensures
        sum_lines(es.take(k)) <= sum_lines(es),
    decreases es.len() - k,
{
    if k < es.len() {
        lemma_sum_lines_prefix(es, k + 1);
        assert(es.take(k + 1).drop_last() =~= es.take(k));
    } else {
        assert(es.take(k) =~= es);
    }
}

/// Tracking keeps at most one entry per path.
pub proof fn lemma_track_keeps_distinct(es: Seq<ContextEntry>, e: ContextEntry)
    requires
        distinct_keys(es),
    ensures
        distinct_keys(with_entry(es, e)),
{
    match key_index(es, e.path@) {
        Some(k) => {
            assert forall|i: int, j: int| 0 <= i < es.len() && 0 <= j < es.len() && i != j implies
                with_entry(es, e)[i].path@ != with_entry(es, e)[j].path@ by {
                if i == k {
                    assert(es[k].path@ == e.path@);
                } else if j == k {
                    assert(es[k].path@ == e.path@);
                }
            }
        },
        None => {},
    }
}

/// Reading back a tracked file gives the entry just tracked.
pub proof fn lemma_track_then_get(es: Seq<ContextEntry>, e: ContextEntry)
    requires
        distinct_keys(es),
    ensures
        lookup(with_entry(es, e), e.path@) == Some(e),
{
    lemma_track_keeps_distinct(es, e);
    let t = with_entry(es, e);
    match key_index(es, e.path@) {
        Some(k) => {
            assert(t[k].path@ == e.path@);
            assert(key_index(t, e.path@) is Some);
        },
        None => {
            assert(t[es.len() as int].path@ == e.path@);
            assert(key_index(t, e.path@) is Some);
        },
    }
    lemma_lookup_index(t, e.path@);
    let j = key_index(t, e.path@).unwrap();
    match key_index(es, e.path@) {
        Some(k) => {
            if j != k {
                assert(t[j].path@ == t[k].path@);
            }
        },
        None => {
            if j != es.len() {
                assert(t[j] == es[j]);
            }
        },
    }
}

/// Tracking a file leaves every other path's entry as it was.
pub proof fn lemma_track_other_keys(es: Seq<ContextEntry>, e: ContextEntry, key: Seq<char>)
    requires
        distinct_keys(es),
        key != e.path@,
    ensures
        lookup(with_entry(es, e), key) == lookup(es, key),
{
    lemma_track_keeps_distinct(es, e);
    let t = with_entry(es, e);
    lemma_lookup_index(t, key);
    lemma_lookup_index(es, key);
    match key_index(es, key) {
        Some(i) => {
            assert(t[i] == es[i]) by {
                if let Some(k) = key_index(es, e.path@) {
                    assert(k != i);
                }
            }
            assert(key_index(t, key) is Some);
            let j = key_index(t, key).unwrap();
            if j != i {
                assert(t[j].path@ == t[i].path@);
            }
        },
        None => {
            if let Some(j) = key_index(t, key) {
                if j < es.len() {
                    if let Some(k) = key_index(es, e.path@) {
                        if j != k {
                            assert(t[j] == es[j]);
                        }
                    } else {
                        assert(t[j] == es[j]);
                    }
                }
            }
        },
    }
}

/// Tracking a new path adds one file; tracking a known path keeps the count.
pub proof fn lemma_track_count(es: Seq<ContextEntry>, e: ContextEntry)
    requires
        distinct_keys(es),
    ensures
        with_entry(es, e).len() == es.len() + (if lookup(es, e.path@) is Some { 0int } else { 1int }),
{
    lemma_lookup_index(es, e.path@);
}

/// Result of checking a file's status
#[derive(Debug, Clone, PartialEq)]
pub enum FileStatus {
    /// File is already in context
    Loaded { entry: ContextEntry, age_secs: u64 },
    /// File is not in context
    NotLoaded { path: String, size: u64, line_count: usize },
}

/// Get file status relative to current context: loaded (with its age,
/// clamped at 0) when tracked, otherwise not loaded with the file's
/// size and line count as read from disk (`info`).
pub fn get_file_status(state: &ContextState, path: &str, now: u64, info: (u64, usize)) -> (res: FileStatus)
    requires
        state.wf(),
    ensures
        match lookup(state.entries@, path@) {
            Some(e) => res == (FileStatus::Loaded {
                entry: e,
                age_secs: if now >= e.tracked_at { (now - e.tracked_at) as u64 } else { 0 },
            }),
            None => res matches FileStatus::NotLoaded { path: p, size, line_count } && p@ == path@
                && size == info.0 && line_count == info.1,
        },
{
    match state.get(path) {
        Some(entry) => {
            let age_secs = if now >= entry.tracked_at { now - entry.tracked_at } else { 0 };
            FileStatus::Loaded { entry: copy_entry(entry), age_secs }
        },
        None => FileStatus::NotLoaded { path: path.to_string(), size: info.0, line_count: info.1 },
    }
}

/// Seconds as a human-readable age.
pub open spec fn format_age_spec(secs: nat) -> Seq<char> {
    if secs < 60 {
        dec(secs) + "s ago"@
    } else if secs < 3600 {
        dec(secs / 60) + "m ago"@
    } else if secs < 86400 {
        dec(secs / 3600) + "h ago"@
    } else {
        dec(secs / 86400) + "d ago"@
    }
}

/// Format seconds as human-readable age
pub fn format_age(secs: u64) -> (res: String)
    ensures
        res@ == format_age_spec(secs as nat),
{
    let mut v: Vec<char> = Vec::new();
    if secs < 60 {
        push_chars(&mut v, &dec_chars(secs));
        push_str(&mut v, "s ago");
    } else if secs < 3600 {
        push_chars(&mut v, &dec_chars(secs / 60));
        push_str(&mut v, "m ago");
    } else if secs < 86400 {
        push_chars(&mut v, &dec_chars(secs / 3600));
        push_str(&mut v, "h ago");
    } else {
        push_chars(&mut v, &dec_chars(secs / 86400));
        push_str(&mut v, "d ago");
    }
    string_from_chars(&v)
}

/// `bytes / unit` rounded to the nearest tenth, in tenths, a tie going to
/// the even tenth (as `{:.1}` rounds the exact quotient).
pub open spec fn tenths(bytes: nat, unit: nat) -> nat {
    let q = (10 * bytes) / unit;
    let r = (10 * bytes) % unit;
    if 2 * r > unit || (2 * r == unit && q % 2 == 1) {
        q + 1
    } else {
        q
    }
}

/// A number of tenths written with one decimal.
pub open spec fn one_decimal(t: nat) -> Seq<char> {
    dec(t / 10) + "."@ + seq![digit(t % 10)]
}

/// Bytes as a human-readable size: `B` below 1024, `KB` below 1024 * 1024
/// and `MB` above, the latter two with one decimal.
pub open spec fn format_bytes_spec(bytes: nat) -> Seq<char> {
    if bytes < 1024 {
        dec(bytes) + " B"@
    } else if bytes < 1024 * 1024 {
        one_decimal(tenths(bytes, 1024)) + " KB"@
    } else {
        one_decimal(tenths(bytes, 1024 * 1024)) + " MB"@
    }
}

fn push_one_decimal(v: &mut Vec<char>, bytes: u64, unit: u64)
    requires
        unit == 1024 || unit == 1024 * 1024,
    ensures
        final(v)@ == old(v)@ + one_decimal(tenths(bytes as nat, unit as nat)),
{
    let q: u128 = (10 * (bytes as u128)) / (unit as u128);
    let r: u128 = (10 * (bytes as u128)) % (unit as u128);
    let t128: u128 = if 2 * r > unit as u128 || (2 * r == unit as u128 && q % 2 == 1) {
        q + 1
    } else {
        q
    };
    assert(q <= (10 * (bytes as int)) / 1024) by (nonlinear_arith)
        requires
            q as int == (10 * (bytes as int)) / (unit as int),
            unit >= 1024,
            bytes >= 0,
    ;
    assert(t128 <= u64::MAX);
    let t = t128 as u64;
    push_chars(v, &dec_chars(t / 10));
    push_str(v, ".");
    let d = t % 10;
    let mut one: Vec<char> = Vec::new();
    one.push(if d == 0 { '0' } else if d == 1 { '1' } else if d == 2 { '2' } else if d == 3 { '3' } else if d == 4 { '4' } else if d == 5 { '5' } else if d == 6 { '6' } else if d == 7 { '7' } else if d == 8 { '8' } else { '9' });
    assert(one@ =~= seq![digit(d as nat)]);
    push_chars(v, &one);
}

/// Format bytes as human-readable size
pub fn format_bytes(bytes: u64) -> (res: String)
    ensures
        res@ == format_bytes_spec(bytes as nat),
{
    let mut v: Vec<char> = Vec::new();
    if bytes < 1024 {
        push_chars(&mut v, &dec_chars(bytes));
        push_str(&mut v, " B");
    } else if bytes < 1024 * 1024 {
        push_one_decimal(&mut v, bytes, 1024);
        push_str(&mut v, " KB");
    } else {
        push_one_decimal(&mut v, bytes, 1024 * 1024);
        push_str(&mut v, " MB");
    }
    string_from_chars(&v)
}

/// The line a check prints for a file.
pub open spec fn status_line_spec(s: FileStatus) -> Seq<char> {
    match s {
        FileStatus::Loaded { entry, age_secs } => entry.path@ + ": loaded "@ + format_age_spec(
            age_secs as nat,
        ) + " ("@ + dec(entry.line_count as nat) + " lines)"@,
        FileStatus::NotLoaded { path, size: _, line_count } => path@ + ": not loaded ("@ + dec(
            line_count as nat,
        ) + " lines)"@,
    }
}

/// The line a check prints for a file.
pub fn file_status_line(status: &FileStatus) -> (res: String)
    ensures
        res@ == status_line_spec(*status),
{
    let mut v: Vec<char> = Vec::new();
    match status {
        FileStatus::Loaded { entry, age_secs } => {
            push_str(&mut v, entry.path.as_str());
            push_str(&mut v, ": loaded ");
            let a = format_age(*age_secs);
            push_str(&mut v, a.as_str());
            push_str(&mut v, " (");
            push_chars(&mut v, &dec_chars(entry.line_count as u64));
            push_str(&mut v, " lines)");
        },
        FileStatus::NotLoaded { path, size: _, line_count } => {
            push_str(&mut v, path.as_str());
            push_str(&mut v, ": not loaded (");
            push_chars(&mut v, &dec_chars(*line_count as u64));
            push_str(&mut v, " lines)");
        },
    }
    string_from_chars(&v)
}

/// The line printed when a file is tracked.
pub fn tracked_line(entry: &ContextEntry) -> (res: String)
    ensures
        res@ == "Tracked: "@ + entry.path@ + " ("@ + dec(entry.line_count as nat) + " lines, "@
            + dec(entry.size as nat) + " bytes)"@,
{
    let mut v = chars_of("Tracked: ");
    push_str(&mut v, entry.path.as_str());
    push_str(&mut v, " (");
    push_chars(&mut v, &dec_chars(entry.line_count as u64));
    push_str(&mut v, " lines, ");
    push_chars(&mut v, &dec_chars(entry.size));
    push_str(&mut v, " bytes)");
    string_from_chars(&v)
}

/// `e` placed into entries that are newest first: before the first entry
/// tracked earlier than it, after all those tracked at the same time or
/// later.
pub open spec fn insert_newest_first(s: Seq<ContextEntry>, e: ContextEntry) -> Seq<ContextEntry>
    decreases s.len(),
{
    if s.len() == 0 {
        seq![e]
    } else if s[0].tracked_at < e.tracked_at {
        seq![e] + s
    } else {
        seq![s[0]] + insert_newest_first(s.drop_first(), e)
    }
}

/// The entries ordered newest first; entries tracked at the same time keep
/// their order (a stable sort by descending time).
pub open spec fn newest_first(s: Seq<ContextEntry>) -> Seq<ContextEntry>
    decreases s.len(),
{
    if s.len() == 0 {
        seq![]
    } else {
        insert_newest_first(newest_first(s.drop_last()), s.last())
    }
}

/// Whether entries are ordered newest first.
pub open spec fn is_newest_first(s: Seq<ContextEntry>) -> bool {
    forall|i: int, j: int| 0 <= i <= j < s.len() ==> s[j].tracked_at <= s[i].tracked_at
}

/// Where `insert_newest_first` puts `e`: before the first older entry.
proof fn lemma_insert_position(s: Seq<ContextEntry>, e: ContextEntry) -> (i: int)
    ensures
        0 <= i <= s.len(),
        insert_newest_first(s, e) == s.insert(i, e),
        forall|m: int| 0 <= m < i ==> !(s[m].tracked_at < e.tracked_at),
        i < s.len() ==> s[i].tracked_at < e.tracked_at,
    decreases s.len(),
{
    if s.len() == 0 {
        assert(s.insert(0, e) =~= seq![e]);
        0
    } else if s[0].tracked_at < e.tracked_at {
        assert(s.insert(0, e) =~= seq![e] + s);
        0
    } else {
        let j = lemma_insert_position(s.drop_first(), e);
        assert(s.insert(j + 1, e) =~= seq![s[0]] + s.drop_first().insert(j, e));
        assert forall|m: int| 0 <= m < j + 1 implies !(s[m].tracked_at < e.tracked_at) by {
            if m > 0 {
                assert(s[m] == s.drop_first()[m - 1]);
            }
        }
        j + 1
    }
}

/// Inserting keeps entries newest first, and adds exactly `e`.
pub proof fn lemma_insert_newest_first(s: Seq<ContextEntry>, e: ContextEntry)
    requires
        is_newest_first(s),
    ensures
        is_newest_first(insert_newest_first(s, e)),
        insert_newest_first(s, e).to_multiset() == s.to_multiset().insert(e),
{
    broadcast use vstd::seq_lib::group_to_multiset_ensures;

    let i = lemma_insert_position(s, e);
    let r = s.insert(i, e);
    assert forall|a: int, b: int| 0 <= a <= b < r.len() implies r[b].tracked_at <= r[a].tracked_at by {
        if a < i && b < i {
        } else if a < i && b == i {
        } else if a < i && b > i {
            assert(r[b] == s[b - 1]);
        } else if a == i && b > i {
            assert(r[b] == s[b - 1]);
            assert(s[b - 1].tracked_at <= s[i].tracked_at);
        } else if a > i {
            assert(r[a] == s[a - 1]);
            assert(r[b] == s[b - 1]);
        }
    }
}

/// The summary lists entries newest first, each tracked entry exactly once.
pub proof fn lemma_newest_first(s: Seq<ContextEntry>)
    ensures
        is_newest_first(newest_first(s)),
        newest_first(s).to_multiset() == s.to_multiset(),
    decreases s.len(),
{
    broadcast use vstd::seq_lib::group_to_multiset_ensures;

    if s.len() > 0 {
        lemma_newest_first(s.drop_last());
        lemma_insert_newest_first(newest_first(s.drop_last()), s.last());
        assert(s =~= s.drop_last().push(s.last()));
    }
}

/// The entries of a state, newest first.
pub fn entries_newest_first(entries: &Vec<ContextEntry>) -> (res: Vec<ContextEntry>)
    ensures
        res@ == newest_first(entries@),
{
    let mut res: Vec<ContextEntry> = Vec::new();
    let mut k: usize = 0;
    while k < entries.len()
        invariant
            k <= entries.len(),
            res@ == newest_first(entries@.take(k as int)),
        decreases entries.len() - k,
    {
        let e = copy_entry(&entries[k]);
        let mut i: usize = 0;
        while i < res.len() && !(res[i].tracked_at < e.tracked_at)
            invariant
                i <= res.len(),
                forall|m: int| 0 <= m < i ==> !(res@[m].tracked_at < e.tracked_at),
            decreases res.len() - i,
        {
            i = i + 1;
        }
        proof {
            let p = lemma_insert_position(res@, e);
            if p < i {
                assert(!(res@[p].tracked_at < e.tracked_at));
            }
            if i < p {
                assert(!(res@[i as int].tracked_at < e.tracked_at));
            }
            assert(entries@.take(k + 1).drop_last() =~= entries@.take(k as int));
        }
        res.insert(i, e);
        k = k + 1;
    }
    assert(entries@.take(entries.len() as int) =~= entries@);
    res
}

/// The age of an entry at `now`, zero for a time in the future.
pub open spec fn age_at(now: u64, tracked_at: u64) -> nat {
    if now >= tracked_at {
        (now - tracked_at) as nat
    } else {
        0
    }
}

/// A summary line of an entry.
pub open spec fn summary_entry_line(e: ContextEntry, now: u64) -> Seq<char> {
    "  "@ + e.path@ + " ("@ + dec(e.line_count as nat) + " lines, "@ + format_bytes_spec(e.size as nat)
        + ") - "@ + format_age_spec(age_at(now, e.tracked_at))
}

/// The lines of the summary: a note when nothing is tracked; otherwise the
/// session, each entry newest first, and the totals.
pub open spec fn summary_spec(state: ContextState, now: u64) -> Seq<Seq<char>> {
    let es = state.entries@;
    if es.len() == 0 {
        seq!["No files tracked in context"@]
    } else {
        seq!["Session: "@ + state.session_id@, seq![]] + newest_first(es).map_values(
            |e: ContextEntry| summary_entry_line(e, now),
        ) + seq![
            seq![],
            "Total: "@ + dec(es.len()) + " files, "@ + dec(sum_lines(es)) + " lines, "@
                + format_bytes_spec(sum_sizes(es)),
        ]
    }
}

/// The lines printed for a summary of the context at `now`.
pub fn summary_lines(state: &ContextState, now: u64) -> (res: Vec<String>)
    requires
        sum_sizes(state.entries@) <= u64::MAX,
        sum_lines(state.entries@) <= usize::MAX,
    ensures
        res@.map_values(|s: String| s@) == summary_spec(*state, now),
{
    let mut out: Vec<String> = Vec::new();
    if state.file_count() == 0 {
        out.push("No files tracked in context".to_string());
        assert(out@.map_values(|s: String| s@) =~= summary_spec(*state, now));
        return out;
    }
    let mut head = chars_of("Session: ");
    push_str(&mut head, state.session_id.as_str());
    out.push(string_from_chars(&head));
    out.push(String::new());
    let sorted = entries_newest_first(&state.entries);
    let mut i: usize = 0;
    while i < sorted.len()
        invariant
            i <= sorted.len(),
            sorted@ == newest_first(state.entries@),
            out@.map_values(|s: String| s@) == seq!["Session: "@ + state.session_id@, seq![]]
                + sorted@.take(i as int).map_values(|e: ContextEntry| summary_entry_line(e, now)),
        decreases sorted.len() - i,
    {
        let e = &sorted[i];
        let mut v = chars_of("  ");
        push_str(&mut v, e.path.as_str());
        push_str(&mut v, " (");
        push_chars(&mut v, &dec_chars(e.line_count as u64));
        push_str(&mut v, " lines, ");
        let b = format_bytes(e.size);
        push_str(&mut v, b.as_str());
        push_str(&mut v, ") - ");
        let age = if now >= e.tracked_at {
            now - e.tracked_at
        } else {
            0
        };
        let a = format_age(age);
        push_str(&mut v, a.as_str());
        let ghost before = out@;
        out.push(string_from_chars(&v));
        assert(sorted@.take(i + 1).map_values(|e: ContextEntry| summary_entry_line(e, now))
            =~= sorted@.take(i as int).map_values(|e: ContextEntry| summary_entry_line(e, now)).push(
            summary_entry_line(sorted@[i as int], now),
        ));
        assert(out@.map_values(|s: String| s@) =~= before.map_values(|s: String| s@).push(
            summary_entry_line(sorted@[i as int], now),
        ));
        i = i + 1;
    }
    assert(sorted@.take(sorted.len() as int) =~= sorted@);
    out.push(String::new());
    let mut t = chars_of("Total: ");
    push_chars(&mut t, &dec_chars(state.file_count() as u64));
    push_str(&mut t, " files, ");
    push_chars(&mut t, &dec_chars(state.total_lines() as u64));
    push_str(&mut t, " lines, ");
    let tb = format_bytes(state.total_bytes());
    push_str(&mut t, tb.as_str());
    out.push(string_from_chars(&t));
    assert(out@.map_values(|s: String| s@) =~= summary_spec(*state, now));
    out
}

/// Whether the sizes of the state's entries add up within `u64`.
pub fn sum_sizes_fit(state: &ContextState) -> (res: bool)
    ensures
        res == (sum_sizes(state.entries@) <= u64::MAX),
{
    let mut total: u64 = 0;
    let mut i: usize = 0;
    while i < state.entries.len()
        invariant
            i <= state.entries@.len(),
            total == sum_sizes(state.entries@.take(i as int)),
        decreases state.entries@.len() - i,
    {
        assert(state.entries@.take(i + 1).drop_last() =~= state.entries@.take(i as int));
        match total.checked_add(state.entries[i].size) {
            Some(t) => {
                total = t;
            },
            None => {
                proof {
                    lemma_sum_sizes_prefix(state.entries@, i + 1);
                }
                return false;
            },
        }
        i = i + 1;
    }
    assert(state.entries@.take(state.entries@.len() as int) =~= state.entries@);
    true
}

/// Whether the line counts of the state's entries add up within `usize`.
pub fn sum_lines_fit(state: &ContextState) -> (res: bool)
    ensures
        res == (sum_lines(state.entries@) <= usize::MAX),
{
    let mut total: usize = 0;
    let mut i: usize = 0;
    while i < state.entries.len()
        invariant
            i <= state.entries@.len(),
            total == sum_lines(state.entries@.take(i as int)),
        decreases state.entries@.len() - i,
    {
        assert(state.entries@.take(i + 1).drop_last() =~= state.entries@.take(i as int));
        match total.checked_add(state.entries[i].line_count) {
            Some(t) => {
                total = t;
            },
            None => {
                proof {
                    lemma_sum_lines_prefix(state.entries@, i + 1);
                }
                return false;
            },
        }
        i = i + 1;
    }
    assert(state.entries@.take(state.entries@.len() as int) =~= state.entries@);
    true
}

} // verus!
