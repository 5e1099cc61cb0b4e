//! Human-friendly cron schedules and cron job descriptions.

use vstd::prelude::*;
use crate::text::{
    byte_len, chars_eq_str, chars_for_bytes, chars_for_bytes_exec, chars_of, contains, contains_exec, dec, dec_chars, digit, is_word, lemma_dec_digits, lemma_words_cons, lemma_words_single, pad_left_fill, push_chars, push_padded_fill, push_str, string_from_chars, sub_chars_take, to_lowercase, lower_text, vv, words, words_of,
};

verus! {

/// Marker comment for hu-managed cron jobs
pub const HU_MARKER: &'static str = "# hu:";

/// Human-friendly schedule options
#[derive(Debug, Clone, Copy, PartialEq, Eq)]
pub enum Schedule {
    /// Every hour at the same minute
    Hourly,
    /// Every day at the same time
    Daily,
    /// Every week on the same day and time
    Weekly,
    /// Every month on the same day and time
    Monthly,
    /// On system reboot
    Reboot,
}

/// The schedule a (lower-cased) name stands for.
pub open spec fn schedule_of(name: Seq<char>) -> Option<Schedule> {
    if name == "hourly"@ {
        Some(Schedule::Hourly)
    } else if name == "daily"@ {
        Some(Schedule::Daily)
    } else if name == "weekly"@ {
        Some(Schedule::Weekly)
    } else if name == "monthly"@ {
        Some(Schedule::Monthly)
    } else if name == "reboot"@ || name == "@reboot"@ {
        Some(Schedule::Reboot)
    } else {
        None
    }
}

/// The cron expression of a schedule at the given minute, hour, day of month
/// and day of week.
pub open spec fn to_cron_spec(s: Schedule, minute: nat, hour: nat, dom: nat, dow: nat) -> Seq<char> {
    match s {
        Schedule::Hourly => dec(minute) + " * * * *"@,
        Schedule::Daily => dec(minute) + " "@ + dec(hour) + " * * *"@,
        Schedule::Weekly => dec(minute) + " "@ + dec(hour) + " * * "@ + dec(dow),
        Schedule::Monthly => dec(minute) + " "@ + dec(hour) + " "@ + dec(dom) + " * *"@,
        Schedule::Reboot => "@reboot"@,
    }
}

/// The display name of a schedule.
pub open spec fn schedule_name(s: Schedule) -> Seq<char> {
    match s {
        Schedule::Hourly => "hourly"@,
        Schedule::Daily => "daily"@,
        Schedule::Weekly => "weekly"@,
        Schedule::Monthly => "monthly"@,
        Schedule::Reboot => "reboot"@,
    }
}

impl Schedule {
    /// Parse a human-friendly schedule string (case-insensitive)
    pub fn parse(s: &str) -> (res: Option<Self>)
        ensures
            res == schedule_of(lower_text(s@)),
    {
        let lower = to_lowercase(s);
        let l = chars_of(lower.as_str());
        if chars_eq_str(&l, "hourly") {
            Some(Schedule::Hourly)
        } else if chars_eq_str(&l, "daily") {
            Some(Schedule::Daily)
        } else if chars_eq_str(&l, "weekly") {
            Some(Schedule::Weekly)
        } else if chars_eq_str(&l, "monthly") {
            Some(Schedule::Monthly)
        } else if chars_eq_str(&l, "reboot") || chars_eq_str(&l, "@reboot") {
            Some(Schedule::Reboot)
        } else {
            None
        }
    }

    /// Convert to cron expression using base time + offset
    pub fn to_cron(self, minute: u32, hour: u32, day_of_month: u32, day_of_week: u32) -> (res: String)
        ensures
            res@ == to_cron_spec(self, minute as nat, hour as nat, day_of_month as nat, day_of_week as nat),
    {
        let mut v: Vec<char> = Vec::new();
        match self {
            Schedule::Hourly => {
                push_chars(&mut v, &dec_chars(minute as u64));
                push_str(&mut v, " * * * *");
            },
            Schedule::Daily => {
                push_chars(&mut v, &dec_chars(minute as u64));
                push_str(&mut v, " ");
                push_chars(&mut v, &dec_chars(hour as u64));
                push_str(&mut v, " * * *");
            },
            Schedule::Weekly => {
                push_chars(&mut v, &dec_chars(minute as u64));
                push_str(&mut v, " ");
                push_chars(&mut v, &dec_chars(hour as u64));
                push_str(&mut v, " * * ");
                push_chars(&mut v, &dec_chars(day_of_week as u64));
            },
            Schedule::Monthly => {
                push_chars(&mut v, &dec_chars(minute as u64));
                push_str(&mut v, " ");
                push_chars(&mut v, &dec_chars(hour as u64));
                push_str(&mut v, " ");
                push_chars(&mut v, &dec_chars(day_of_month as u64));
                push_str(&mut v, " * *");
            },
            Schedule::Reboot => {
                push_str(&mut v, "@reboot");
            },
        }
        string_from_chars(&v)
    }

    /// Get display name
    pub fn display_name(&self) -> (res: &'static str)
        ensures
            res@ == schedule_name(*self),
    {
        match self {
            Schedule::Hourly => "hourly",
            Schedule::Daily => "daily",
            Schedule::Weekly => "weekly",
            Schedule::Monthly => "monthly",
            Schedule::Reboot => "reboot",
        }
    }
}

/// A schedule's display name names that schedule again.
pub proof fn lemma_display_name_round_trip(s: Schedule)
    ensures
        schedule_of(schedule_name(s)) == Some(s),
{
    reveal_strlit("hourly");
    reveal_strlit("daily");
    reveal_strlit("weekly");
    reveal_strlit("monthly");
    reveal_strlit("reboot");
    reveal_strlit("@reboot");
    let n = schedule_name(s);
    assert(n[0] != "hourly"@[0] ==> n != "hourly"@);
    assert(n[0] != "weekly"@[0] ==> n != "weekly"@);
    assert(n[0] != "monthly"@[0] ==> n != "monthly"@);
    assert(n[0] != "reboot"@[0] ==> n != "reboot"@);
    assert(n[0] != "@reboot"@[0] ==> n != "@reboot"@);
    assert(n.len() != "daily"@.len() ==> n != "daily"@);
}

/// A cron job entry
#[derive(Debug, Clone)]
pub struct CronJob {
    /// The cron expression (e.g., "35 18 * * *")
    pub expression: String,
    /// The command to run
    pub command: String,
    /// Human-readable schedule (if parsed from hu)
    pub schedule_name: Option<String>,
    /// Whether this is a hu-managed job
    pub is_hu_job: bool,
}

/// Short name of a day of the week given as `0`..`6` (Sunday first); other
/// text is kept as it is.
pub open spec fn day_name(dow: Seq<char>) -> Seq<char> {
    if dow == "0"@ {
        "Sun"@
    } else if dow == "1"@ {
        "Mon"@
    } else if dow == "2"@ {
        "Tue"@
    } else if dow == "3"@ {
        "Wed"@
    } else if dow == "4"@ {
        "Thu"@
    } else if dow == "5"@ {
        "Fri"@
    } else if dow == "6"@ {
        "Sat"@
    } else {
        dow
    }
}

/// English ordinal suffix of a day of the month.
pub open spec fn ordinal_suffix(dom: Seq<char>) -> Seq<char> {
    if dom == "1"@ || dom == "21"@ || dom == "31"@ {
        "st"@
    } else if dom == "2"@ || dom == "22"@ {
        "nd"@
    } else if dom == "3"@ || dom == "23"@ {
        "rd"@
    } else {
        "th"@
    }
}

/// The human-readable time of a cron expression: `on reboot`; hourly,
/// daily, weekly and monthly patterns; the expression itself otherwise.
/// Minutes are zero-padded to two digits.
pub open spec fn describe_time_spec(expr: Seq<char>) -> Seq<char> {
    if expr == "@reboot"@ {
        "on reboot"@
    } else {
        let parts = words(expr);
        if parts.len() != 5 {
            expr
        } else {
            let min = pad_left_fill(parts[0], 2, '0');
            let hour = parts[1];
            let dom = parts[2];
            let dow = parts[4];
            let star = "*"@;
            if hour == star && dom == star && dow == star {
                ":"@ + min + " every hour"@
            } else if dom == star && dow == star {
                hour + ":"@ + min + " daily"@
            } else if dom == star && dow != star {
                hour + ":"@ + min + " every "@ + day_name(dow)
            } else if dow == star {
                hour + ":"@ + min + " on "@ + dom + ordinal_suffix(dom)
            } else {
                expr
            }
        }
    }
}

fn day_name_exec(dow: &Vec<char>) -> (res: Vec<char>)
    ensures
        res@ == day_name(dow@),
{
    if chars_eq_str(dow, "0") {
        chars_of("Sun")
    } else if chars_eq_str(dow, "1") {
        chars_of("Mon")
    } else if chars_eq_str(dow, "2") {
        chars_of("Tue")
    } else if chars_eq_str(dow, "3") {
        chars_of("Wed")
    } else if chars_eq_str(dow, "4") {
        chars_of("Thu")
    } else if chars_eq_str(dow, "5") {
        chars_of("Fri")
    } else if chars_eq_str(dow, "6") {
        chars_of("Sat")
    } else {
        dow.clone()
    }
}

fn ordinal_suffix_exec(dom: &Vec<char>) -> (res: &'static str)
    ensures
        res@ == ordinal_suffix(dom@),
{
    if chars_eq_str(dom, "1") || chars_eq_str(dom, "21") || chars_eq_str(dom, "31") {
        "st"
    } else if chars_eq_str(dom, "2") || chars_eq_str(dom, "22") {
        "nd"
    } else if chars_eq_str(dom, "3") || chars_eq_str(dom, "23") {
        "rd"
    } else {
        "th"
    }
}

impl CronJob {
    /// Check if this job matches a pattern (command contains pattern)
    pub fn matches(&self, pattern: &str) -> (b: bool)
        ensures
            b == contains(self.command@, pattern@),
    {
        let c = chars_of(self.command.as_str());
        let p = chars_of(pattern);
        contains_exec(&c, &p)
    }

    /// Get human-readable time description from cron expression
    pub fn describe_time(&self) -> (res: String)
        ensures
            res@ == describe_time_spec(self.expression@),
    {
        let expr = chars_of(self.expression.as_str());
        if chars_eq_str(&expr, "@reboot") {
            return "on reboot".to_string();
        }
        let parts = words_of(&expr);
        if parts.len() != 5 {
            return self.expression.clone();
        }
        let mut min: Vec<char> = Vec::new();
        push_padded_fill(&mut min, &parts[0], 2, '0');
        assert(min@ =~= pad_left_fill(vv(parts@)[0], 2, '0'));
        let hour = &parts[1];
        let dom = &parts[2];
        let dow = &parts[4];
        let hour_star = chars_eq_str(hour, "*");
        let dom_star = chars_eq_str(dom, "*");
        let dow_star = chars_eq_str(dow, "*");
        let mut out: Vec<char> = Vec::new();
        if hour_star && dom_star && dow_star {
            push_str(&mut out, ":");
            push_chars(&mut out, &min);
            push_str(&mut out, " every hour");
        } else if dom_star && dow_star {
            push_chars(&mut out, hour);
            push_str(&mut out, ":");
            push_chars(&mut out, &min);
            push_str(&mut out, " daily");
        } else if dom_star && !dow_star {
            push_chars(&mut out, hour);
            push_str(&mut out, ":");
            push_chars(&mut out, &min);
            push_str(&mut out, " every ");
            let d = day_name_exec(dow);
            push_chars(&mut out, &d);
        } else if dow_star {
            push_chars(&mut out, hour);
            push_str(&mut out, ":");
            push_chars(&mut out, &min);
            push_str(&mut out, " on ");
            push_chars(&mut out, dom);
            push_str(&mut out, ordinal_suffix_exec(dom));
        } else {
            return self.expression.clone();
        }
        string_from_chars(&out)
    }
}

/// Whether `truncate_command` can cut `cmd` at `max_len`: a command that
/// does not fit is cut after `max_len - 3` bytes, which needs `max_len >= 3`
/// and a character boundary there.
pub open spec fn truncate_ok(cmd: Seq<char>, max_len: nat) -> bool {
    byte_len(cmd) <= max_len || (max_len >= 3 && chars_for_bytes(
        cmd,
        (max_len - 3) as nat,
    ) is Some)
}

/// Whether `truncate_command` can take `cmd` and `max_len`.
pub fn truncate_ok_exec(cmd: &str, max_len: usize) -> (res: bool)
    ensures
        res == truncate_ok(cmd@, max_len as nat),
{
    if cmd.len() <= max_len {
        return true;
    }
    if max_len < 3 {
        return false;
    }
    chars_for_bytes_exec(&chars_of(cmd), max_len - 3).is_some()
}

/// A command shortened for display: kept when it fits in `max_len` bytes,
/// otherwise its first `max_len - 3` bytes followed by `...`.
pub open spec fn truncate_command_spec(cmd: Seq<char>, max_len: nat) -> Seq<char> {
    if byte_len(cmd) <= max_len {
        cmd
    } else {
        cmd.take(chars_for_bytes(cmd, (max_len - 3) as nat).unwrap() as int) + "..."@
    }
}

/// Truncate a command string for display
pub fn truncate_command(cmd: &str, max_len: usize) -> (res: String)
    requires
        truncate_ok(cmd@, max_len as nat),
    ensures
        res@ == truncate_command_spec(cmd@, max_len as nat),
{
    if cmd.len() <= max_len {
        return cmd.to_string();
    }
    let c = chars_of(cmd);
    let k = chars_for_bytes_exec(&c, max_len - 3);
    match k {
        Some(k) => {
            let mut out = sub_chars_take(&c, k);
            push_str(&mut out, "...");
            string_from_chars(&out)
        },
        None => {
            proof {
                assert(false);
            }
            cmd.to_string()
        },
    }
}

/// The line that reports an added job.
pub open spec fn format_added_spec(job: CronJob) -> Seq<char> {
    "\x1b[32m\u{2713}\x1b[0m Added "@ + (match job.schedule_name {
        Some(n) => n@,
        None => "cron"@,
    }) + " job: "@ + job.expression@ + " "@ + truncate_command_spec(job.command@, 40)
}

/// Format a single added job (the plain-text form)
pub fn format_added_text(job: &CronJob) -> (res: String)
    requires
        truncate_ok(job.command@, 40),
    ensures
        res@ == format_added_spec(*job),
{
    let mut out: Vec<char> = Vec::new();
    push_str(&mut out, "\x1b[32m\u{2713}\x1b[0m Added ");
    match &job.schedule_name {
        Some(n) => push_str(&mut out, n.as_str()),
        None => push_str(&mut out, "cron"),
    }
    push_str(&mut out, " job: ");
    push_str(&mut out, job.expression.as_str());
    push_str(&mut out, " ");
    let t = truncate_command(job.command.as_str(), 40);
    push_str(&mut out, t.as_str());
    string_from_chars(&out)
}

/// One line of the removal report.
pub open spec fn removed_line(job: CronJob) -> Seq<char> {
    "  - "@ + job.expression@ + " "@ + truncate_command_spec(job.command@, 50) + "\n"@
}

/// All lines of the removal report, in order.
pub open spec fn removed_lines(jobs: Seq<CronJob>) -> Seq<char>
    decreases jobs.len(),
{
    if jobs.len() == 0 {
        seq![]
    } else {
        removed_lines(jobs.drop_last()) + removed_line(jobs.last())
    }
}

/// The report of removed jobs: `No matching jobs found`, or a count line
/// followed by one line per job, with trailing white space trimmed.
pub open spec fn format_removed_spec(jobs: Seq<CronJob>) -> Seq<char> {
    if jobs.len() == 0 {
        "No matching jobs found"@
    } else {
        crate::text::trim_end(
            "\x1b[32m\u{2713}\x1b[0m Removed "@ + dec(jobs.len()) + " job"@ + (if jobs.len() == 1 {
                ""@
            } else {
                "s"@
            }) + ":\n"@ + removed_lines(jobs),
        )
    }
}

/// Format removed jobs (the plain-text form)
pub fn format_removed_text(jobs: &Vec<CronJob>) -> (res: String)
    requires
        forall|i: int| 0 <= i < jobs@.len() ==> truncate_ok(#[trigger] jobs@[i].command@, 50),
    ensures
        res@ == format_removed_spec(jobs@),
{
    if jobs.len() == 0 {
        return "No matching jobs found".to_string();
    }
    let mut out: Vec<char> = Vec::new();
    push_str(&mut out, "\x1b[32m\u{2713}\x1b[0m Removed ");
    push_chars(&mut out, &dec_chars(jobs.len() as u64));
    push_str(&mut out, " job");
    if jobs.len() == 1 {
        push_str(&mut out, "");
    } else {
        push_str(&mut out, "s");
    }
    push_str(&mut out, ":\n");
    let ghost head = out@;
    let mut i: usize = 0;
    while i < jobs.len()
        invariant
            i <= jobs.len(),
            forall|k: int| 0 <= k < jobs@.len() ==> truncate_ok(#[trigger] jobs@[k].command@, 50),
            out@ == head + removed_lines(jobs@.take(i as int)),
        decreases jobs.len() - i,
    {
        push_str(&mut out, "  - ");
        push_str(&mut out, jobs[i].expression.as_str());
        push_str(&mut out, " ");
        let t = truncate_command(jobs[i].command.as_str(), 50);
        push_str(&mut out, t.as_str());
        push_str(&mut out, "\n");
        assert(jobs@.take(i + 1).drop_last() =~= jobs@.take(i as int));
        assert(out@ =~= head + removed_lines(jobs@.take(i + 1)));
        i = i + 1;
    }
    assert(jobs@.take(jobs.len() as int) =~= jobs@);
    let trimmed = crate::text::trim_end_chars(&out);
    string_from_chars(&trimmed)
}

/// The message for a schedule name that `Schedule::parse` does not know.
pub fn invalid_schedule_message(schedule: &str) -> (res: String)
    ensures
        res@ == "Invalid schedule '"@ + schedule@ + "'. Use: hourly, daily, weekly, monthly, reboot"@,
{
    let mut v = chars_of("Invalid schedule '");
    push_str(&mut v, schedule);
    push_str(&mut v, "'. Use: hourly, daily, weekly, monthly, reboot");
    string_from_chars(&v)
}

/// The positions of the jobs whose command contains the pattern.
pub open spec fn matching_positions(jobs: Seq<CronJob>, pattern: Seq<char>) -> Seq<usize>
    decreases jobs.len(),
{
    if jobs.len() == 0 {
        seq![]
    } else {
        let rest = matching_positions(jobs.drop_last(), pattern);
        if contains(jobs.last().command@, pattern) {
            rest.push((jobs.len() - 1) as usize)
        } else {
            rest
        }
    }
}

/// What a remove command does.
#[derive(Debug)]
pub enum RemovePlan {
    /// No job matches: report that nothing was removed.
    NothingMatches,
    /// Show the jobs at these positions and ask for `--force`.
    Confirm(Vec<usize>),
    /// Remove the matching jobs.
    Remove,
}

/// Decide what removing the jobs that match `pattern` does: nothing when
/// none matches; a confirmation listing them unless forced or writing
/// JSON; otherwise the removal.
pub fn plan_remove(jobs: &Vec<CronJob>, pattern: &str, force: bool, json: bool) -> (res: RemovePlan)
    ensures
        matching_positions(jobs@, pattern@).len() == 0 ==> res is NothingMatches,
        matching_positions(jobs@, pattern@).len() > 0 && !force && !json ==> (res matches RemovePlan::Confirm(ps)
            && ps@ == matching_positions(jobs@, pattern@)),
        matching_positions(jobs@, pattern@).len() > 0 && (force || json) ==> res is Remove,
{
    let mut ps: Vec<usize> = Vec::new();
    let mut i: usize = 0;
    while i < jobs.len()
        invariant
            i <= jobs.len(),
            ps@ == matching_positions(jobs@.take(i as int), pattern@),
        decreases jobs.len() - i,
    {
        assert(jobs@.take(i + 1).drop_last() =~= jobs@.take(i as int));
        if jobs[i].matches(pattern) {
            ps.push(i);
        }
        i = i + 1;
    }
    assert(jobs@.take(jobs.len() as int) =~= jobs@);
    if ps.len() == 0 {
        RemovePlan::NothingMatches
    } else if !force && !json {
        RemovePlan::Confirm(ps)
    } else {
        RemovePlan::Remove
    }
}

/// The line that shows a job to be removed.
pub open spec fn preview_line(jobs: Seq<CronJob>, p: usize) -> Seq<char> {
    "  - "@ + jobs[p as int].expression@ + " "@ + jobs[p as int].command@
}

/// The lines that ask to confirm a removal: how many jobs, each with its
/// expression and command, and how to confirm.
pub open spec fn removal_preview_spec(jobs: Seq<CronJob>, ps: Seq<usize>) -> Seq<Seq<char>> {
    seq!["Will remove "@ + dec(ps.len()) + " job(s):"@] + ps.map_values(|p: usize| preview_line(jobs, p))
        + seq!["\nUse --force to confirm removal"@]
}

/// The confirmation lines for the jobs at the given positions.
pub fn removal_preview(jobs: &Vec<CronJob>, positions: &Vec<usize>) -> (res: Vec<String>)
    requires
        forall|i: int| 0 <= i < positions@.len() ==> positions@[i] < jobs@.len(),
    ensures
        res@.map_values(|s: String| s@) == removal_preview_spec(jobs@, positions@),
{
    let mut out: Vec<String> = Vec::new();
    let mut head = chars_of("Will remove ");
    push_chars(&mut head, &dec_chars(positions.len() as u64));
    push_str(&mut head, " job(s):");
    out.push(string_from_chars(&head));
    let mut i: usize = 0;
    while i < positions.len()
        invariant
            i <= positions.len(),
            forall|k: int| 0 <= k < positions@.len() ==> positions@[k] < jobs@.len(),
            out@.map_values(|s: String| s@) == seq!["Will remove "@ + dec(positions@.len()) + " job(s):"@]
                + positions@.take(i as int).map_values(|p: usize| preview_line(jobs@, p)),
        decreases positions.len() - i,
    {
        let job = &jobs[positions[i]];
        let mut v = chars_of("  - ");
        push_str(&mut v, job.expression.as_str());
        push_str(&mut v, " ");
        push_str(&mut v, job.command.as_str());
        let ghost before = out@;
        let line = string_from_chars(&v);
        assert(line@ == preview_line(jobs@, positions@[i as int]));
        out.push(line);
        assert(positions@.take(i + 1).map_values(|p: usize| preview_line(jobs@, p)) =~= positions@.take(i as int).map_values(|p: usize| preview_line(jobs@, p)).push(
            preview_line(jobs@, positions@[i as int]),
        ));
        assert(out@.map_values(|s: String| s@) =~= before.map_values(|s: String| s@).push(
            preview_line(jobs@, positions@[i as int]),
        ));
        i = i + 1;
    }
    out.push("\nUse --force to confirm removal".to_string());
    assert(positions@.take(positions.len() as int) =~= positions@);
    assert(out@.map_values(|s: String| s@) =~= removal_preview_spec(jobs@, positions@));
    out
}

/// The column titles of the job table.
pub const JOB_TABLE_HEADER: [&'static str; 5] = ["#", "Schedule", "Time", "Command", ""];

/// The cells of a job's row: its number (from 1), schedule name or `-`,
/// time, command cut to 50 bytes, and `hu` for managed jobs.
pub open spec fn job_row_spec(index: nat, job: CronJob) -> Seq<Seq<char>> {
    seq![
        dec(index + 1),
        match job.schedule_name {
            Some(n) => n@,
            None => "-"@,
        },
        describe_time_spec(job.expression@),
        truncate_command_spec(job.command@, 50),
        if job.is_hu_job {
            "hu"@
        } else {
            seq![]
        },
    ]
}

/// The cells of the job table row at `index`.
pub fn job_row(index: usize, job: &CronJob) -> (res: Vec<String>)
    requires
        index < usize::MAX,
        truncate_ok(job.command@, 50),
    ensures
        res@.map_values(|s: String| s@) == job_row_spec(index as nat, *job),
{
    let mut out: Vec<String> = Vec::new();
    out.push(string_from_chars(&dec_chars((index as u64) + 1)));
    out.push(
        match &job.schedule_name {
            Some(n) => n.clone(),
            None => "-".to_string(),
        },
    );
    out.push(job.describe_time());
    out.push(truncate_command(job.command.as_str(), 50));
    out.push(
        if job.is_hu_job {
            "hu".to_string()
        } else {
            String::new()
        },
    );
    assert(out@.map_values(|s: String| s@) =~= job_row_spec(index as nat, *job));
    out
}

/// Short name of a day of the week, `0` for Sunday.
pub open spec fn day_short(w: nat) -> Seq<char> {
    if w == 0 {
        "Sun"@
    } else if w == 1 {
        "Mon"@
    } else if w == 2 {
        "Tue"@
    } else if w == 3 {
        "Wed"@
    } else if w == 4 {
        "Thu"@
    } else if w == 5 {
        "Fri"@
    } else {
        "Sat"@
    }
}

/// English ordinal suffix of a day number.
pub open spec fn day_suffix(d: nat) -> Seq<char> {
    if d == 1 || d == 21 || d == 31 {
        "st"@
    } else if d == 2 || d == 22 {
        "nd"@
    } else if d == 3 || d == 23 {
        "rd"@
    } else {
        "th"@
    }
}

/// How a schedule at the given minute, hour, day of month and day of week
/// is described: the minute in two digits.
pub open spec fn schedule_description(s: Schedule, minute: nat, hour: nat, dom: nat, dow: nat) -> Seq<
    char,
> {
    let mm = pad_left_fill(dec(minute), 2, '0');
    match s {
        Schedule::Hourly => ":"@ + mm + " every hour"@,
        Schedule::Daily => dec(hour) + ":"@ + mm + " daily"@,
        Schedule::Weekly => dec(hour) + ":"@ + mm + " every "@ + day_short(dow),
        Schedule::Monthly => dec(hour) + ":"@ + mm + " on "@ + dec(dom) + day_suffix(dom),
        Schedule::Reboot => "on reboot"@,
    }
}

/// Decimal notation of a number below 100: one or two digits.
proof fn lemma_dec_small(n: nat)
    requires
        n < 100,
    ensures
        n < 10 ==> dec(n) == seq![digit(n)],
        n >= 10 ==> dec(n) == seq![digit(n / 10), digit(n % 10)],
{
    if n >= 10 {
        assert(dec(n / 10) == seq![digit(n / 10)]);
        assert(dec(n) =~= seq![digit(n / 10), digit(n % 10)]);
    }
}

/// A number in decimal is a word that is neither `*` nor starts with `@`.
proof fn lemma_dec_field(n: nat)
    ensures
        is_word(dec(n)),
        dec(n)[0] != '@',
        dec(n) != "*"@,
{
    lemma_dec_digits(n);
    reveal_strlit("*");
    assert(dec(n)[0] != "*"@[0] || dec(n).len() != "*"@.len());
}

/// The day of the week in decimal names that day.
proof fn lemma_day_name_of(w: nat)
    requires
        w <= 6,
    ensures
        day_name(dec(w)) == day_short(w),
{
    lemma_dec_small(w);
    reveal_strlit("0");
    reveal_strlit("1");
    reveal_strlit("2");
    reveal_strlit("3");
    reveal_strlit("4");
    reveal_strlit("5");
    reveal_strlit("6");
    let t = dec(w);
    assert(t[0] == digit(w));
    if w == 0 { assert(t =~= "0"@); }
    else if w == 1 { assert(t =~= "1"@); assert(t[0] != "0"@[0]); }
    else if w == 2 { assert(t =~= "2"@); assert(t[0] != "0"@[0] && t[0] != "1"@[0]); }
    else if w == 3 { assert(t =~= "3"@); assert(t[0] != "0"@[0] && t[0] != "1"@[0] && t[0] != "2"@[0]); }
    else if w == 4 {
        assert(t =~= "4"@);
        assert(t[0] != "0"@[0] && t[0] != "1"@[0] && t[0] != "2"@[0] && t[0] != "3"@[0]);
    } else if w == 5 {
        assert(t =~= "5"@);
        assert(t[0] != "0"@[0] && t[0] != "1"@[0] && t[0] != "2"@[0] && t[0] != "3"@[0] && t[0] != "4"@[0]);
    } else {
        assert(t =~= "6"@);
        assert(t[0] != "0"@[0] && t[0] != "1"@[0] && t[0] != "2"@[0] && t[0] != "3"@[0] && t[0] != "4"@[0]
            && t[0] != "5"@[0]);
    }
}

/// The day of the month in decimal takes its ordinal suffix.
proof fn lemma_suffix_of(d: nat)
    requires
        1 <= d <= 31,
    ensures
        ordinal_suffix(dec(d)) == day_suffix(d),
{
    lemma_dec_small(d);
    reveal_strlit("1");
    reveal_strlit("21");
    reveal_strlit("31");
    reveal_strlit("2");
    reveal_strlit("22");
    reveal_strlit("3");
    reveal_strlit("23");
    let t = dec(d);
    if d < 10 {
        assert(t.len() == 1);
        assert(t[0] == digit(d));
        assert(t == "1"@ <==> d == 1) by {
            if d == 1 { assert(t =~= "1"@); }
            if t == "1"@ { assert(t[0] == "1"@[0]); }
        }
        assert(t == "2"@ <==> d == 2) by {
            if d == 2 { assert(t =~= "2"@); }
            if t == "2"@ { assert(t[0] == "2"@[0]); }
        }
        assert(t == "3"@ <==> d == 3) by {
            if d == 3 { assert(t =~= "3"@); }
            if t == "3"@ { assert(t[0] == "3"@[0]); }
        }
        assert(t != "21"@ && t != "31"@ && t != "22"@ && t != "23"@);
    } else {
        assert(t.len() == 2);
        assert(t[0] == digit(d / 10) && t[1] == digit(d % 10));
        assert(t != "1"@ && t != "2"@ && t != "3"@);
        assert(t == "21"@ <==> d == 21) by {
            if d == 21 { assert(t =~= "21"@); }
            if t == "21"@ { assert(t[0] == "21"@[0] && t[1] == "21"@[1]); }
        }
        assert(t == "31"@ <==> d == 31) by {
            if d == 31 { assert(t =~= "31"@); }
            if t == "31"@ { assert(t[0] == "31"@[0] && t[1] == "31"@[1]); }
        }
        assert(t == "22"@ <==> d == 22) by {
            if d == 22 { assert(t =~= "22"@); }
            if t == "22"@ { assert(t[0] == "22"@[0] && t[1] == "22"@[1]); }
        }
        assert(t == "23"@ <==> d == 23) by {
            if d == 23 { assert(t =~= "23"@); }
            if t == "23"@ { assert(t[0] == "23"@[0] && t[1] == "23"@[1]); }
        }
    }
}

/// What a job's expression made by `to_cron` is described as: the time of
/// the schedule it was made from.
pub proof fn lemma_describe_to_cron(s: Schedule, minute: nat, hour: nat, dom: nat, dow: nat)
    requires
        minute < 60,
        hour < 24,
        1 <= dom <= 31,
        dow <= 6,
    ensures
        describe_time_spec(to_cron_spec(s, minute, hour, dom, dow)) == schedule_description(
            s,
            minute,
            hour,
            dom,
            dow,
        ),
{
    reveal_strlit("@reboot");
    reveal_strlit("*");
    reveal_strlit(" * * * *");
    reveal_strlit(" ");
    reveal_strlit(" * * *");
    reveal_strlit(" * * ");
    reveal_strlit(" * *");
    let star = "*"@;
    let sp = seq![' '];
    assert(star =~= seq!['*']);
    assert(is_word(star));
    lemma_dec_field(minute);
    lemma_dec_field(hour);
    lemma_dec_field(dom);
    lemma_dec_field(dow);
    let m = dec(minute);
    let h = dec(hour);
    let e = to_cron_spec(s, minute, hour, dom, dow);
    lemma_words_single(star);
    match s {
        Schedule::Hourly => {
            let r3 = star + sp + star;
            let r2 = star + sp + r3;
            let r1 = star + sp + r2;
            assert(e =~= m + sp + r1);
            lemma_words_single(star);
            lemma_words_cons(star, star);
            lemma_words_cons(star, r3);
            lemma_words_cons(star, r2);
            lemma_words_cons(m, r1);
            assert(words(e) =~= seq![m, star, star, star, star]);
            assert(e[0] == m[0]);
            assert(e != "@reboot"@) by { assert(e[0] != "@reboot"@[0]); }
        },
        Schedule::Daily => {
            let r2 = star + sp + star;
            let r1 = star + sp + r2;
            let r0 = h + sp + r1;
            assert(e =~= m + sp + r0);
            lemma_words_cons(star, star);
            lemma_words_cons(star, r2);
            lemma_words_cons(h, r1);
            lemma_words_cons(m, r0);
            assert(words(e) =~= seq![m, h, star, star, star]);
            assert(e[0] == m[0]);
            assert(e != "@reboot"@) by { assert(e[0] != "@reboot"@[0]); }
        },
        Schedule::Weekly => {
            let w = dec(dow);
            lemma_words_single(w);
            let r2 = star + sp + w;
            let r1 = star + sp + r2;
            let r0 = h + sp + r1;
            assert(e =~= m + sp + r0);
            lemma_words_cons(star, w);
            lemma_words_cons(star, r2);
            lemma_words_cons(h, r1);
            lemma_words_cons(m, r0);
            assert(words(e) =~= seq![m, h, star, star, w]);
            assert(e[0] == m[0]);
            assert(e != "@reboot"@) by { assert(e[0] != "@reboot"@[0]); }
            lemma_day_name_of(dow);
        },
        Schedule::Monthly => {
            let d = dec(dom);
            let r2 = star + sp + star;
            let r1 = d + sp + r2;
            let r0 = h + sp + r1;
            assert(e =~= m + sp + r0);
            lemma_words_cons(star, star);
            lemma_words_cons(d, r2);
            lemma_words_cons(h, r1);
            lemma_words_cons(m, r0);
            assert(words(e) =~= seq![m, h, d, star, star]);
            assert(e[0] == m[0]);
            assert(e != "@reboot"@) by { assert(e[0] != "@reboot"@[0]); }
            lemma_suffix_of(dom);
        },
        Schedule::Reboot => {},
    }
}

} // verus!
