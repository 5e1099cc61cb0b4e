//! Host setup: which system this is, how packages are ensured, and what the
//! post-install checks conclude from the commands they run.

use vstd::prelude::*;
use crate::text::{
    chars_eq_str, chars_of, contains, contains_exec, ends_with, ends_with_exec, lines, lines_of,
    lower_text, push_chars, push_str, signed_dec, signed_dec_chars, starts_with, starts_with_exec,
    string_from_chars, sub_chars, to_lowercase, trim, trim_chars, vv,
};

verus! {

/// The operating system of the host.
#[derive(Debug, Clone, PartialEq, Eq)]
pub enum Os {
    Mac,
    Linux { distro: String },
    Other { name: String },
}

/// The label of a system: `macOS`, `linux (DISTRO)`, or its name.
pub open spec fn os_label(os: Os) -> Seq<char> {
    match os {
        Os::Mac => "macOS"@,
        Os::Linux { distro } => "linux ("@ + distro@ + ")"@,
        Os::Other { name } => name@,
    }
}

impl Os {
    /// The system named by `std::env::consts::OS`: a Linux host's
    /// distribution comes from the text of `/etc/os-release`, `ID=linux` when
    /// it could not be read.
    pub fn from_host(os_name: &str, os_release: Option<&str>) -> (res: Self)
        requires
            os_name@ == "linux"@ ==> match os_release {
                Some(raw) => os_release_ok(raw@),
                None => true,
            },
        ensures
            os_name@ == "macos"@ ==> res == Os::Mac,
            os_name@ == "linux"@ ==> (res matches Os::Linux { distro } && distro@ == os_release_id(
                match os_release {
                    Some(raw) => raw@,
                    None => "ID=linux"@,
                },
            )),
            os_name@ != "macos"@ && os_name@ != "linux"@ ==> (res matches Os::Other { name }
                && name@ == os_name@),
    {
        let n = chars_of(os_name);
        proof {
            reveal_strlit("macos");
            reveal_strlit("linux");
            assert("macos"@[0] != "linux"@[0]);
        }
        if chars_eq_str(&n, "macos") {
            return Os::Mac;
        }
        if chars_eq_str(&n, "linux") {
            let raw = match os_release {
                Some(r) => r,
                None => {
                    proof {
                        reveal_strlit("ID=linux");
                        reveal_strlit("ID=");
                        lemma_os_release_default();
                    }
                    "ID=linux"
                },
            };
            return Os::Linux { distro: parse_os_release_id(raw) };
        }
        Os::Other { name: os_name.to_string() }
    }

    pub fn label(&self) -> (res: String)
        ensures
            res@ == os_label(*self),
    {
        match self {
            Os::Mac => "macOS".to_string(),
            Os::Linux { distro } => {
                let mut out = chars_of("linux (");
                push_str(&mut out, distro.as_str());
                push_str(&mut out, ")");
                string_from_chars(&out)
            },
            Os::Other { name } => name.clone(),
        }
    }

    pub fn is_macos(&self) -> (res: bool)
        ensures
            res == (*self is Mac),
    {
        matches!(self, Os::Mac)
    }

    pub fn is_linux(&self) -> (res: bool)
        ensures
            res == (*self is Linux),
    {
        matches!(self, Os::Linux { .. })
    }
}

/// Whether `c` is a quote that `strip_quotes` removes.
pub open spec fn is_quote(c: char) -> bool {
    c == '"' || c == '\''
}

/// A value trimmed, and without its surrounding quotes when it starts and
/// ends with the same kind of quote.
pub open spec fn strip_quotes_spec(s: Seq<char>) -> Seq<char> {
    let t = trim(s);
    if (starts_with(t, "\""@) && ends_with(t, "\""@)) || (starts_with(t, "'"@) && ends_with(t, "'"@)) {
        t.subrange(1, t.len() - 1)
    } else {
        t
    }
}

/// A value `strip_quotes` can take: not a lone quote once trimmed (which
/// would be sliced past its end).
pub open spec fn strip_quotes_ok(s: Seq<char>) -> bool {
    !(trim(s).len() == 1 && is_quote(trim(s)[0]))
}

/// Strip surrounding quotes from a value.
pub fn strip_quotes(s: &str) -> (res: String)
    requires
        strip_quotes_ok(s@),
    ensures
        res@ == strip_quotes_spec(s@),
{
    let t = trim_chars(&chars_of(s));
    let dq = chars_of("\"");
    let sq = chars_of("'");
    if (starts_with_exec(&t, &dq) && ends_with_exec(&t, &dq)) || (starts_with_exec(&t, &sq)
        && ends_with_exec(&t, &sq)) {
        proof {
            reveal_strlit("\"");
            reveal_strlit("'");
            assert(t@.take(1)[0] == t@[0]);
            if t@.len() == 1 {
                assert(is_quote(t@[0]));
            }
        }
        let inner = sub_chars(&t, 1, t.len() - 1);
        string_from_chars(&inner)
    } else {
        string_from_chars(&t)
    }
}

/// The first line of `ls` that starts with `ID=`.
pub open spec fn first_id_line(ls: Seq<Seq<char>>) -> Option<Seq<char>>
    decreases ls.len(),
{
    if ls.len() == 0 {
        None
    } else if starts_with(ls[0], "ID="@) {
        Some(ls[0])
    } else {
        first_id_line(ls.drop_first())
    }
}

/// The distribution id of an `/etc/os-release` text: the value of its
/// first `ID=` line, unquoted and lower-cased; `linux` without one.
pub open spec fn os_release_id(raw: Seq<char>) -> Seq<char> {
    match first_id_line(lines(raw)) {
        Some(l) => lower_text(strip_quotes_spec(l.skip(3))),
        None => "linux"@,
    }
}

/// A text `parse_os_release_id` can take: its `ID=` value is not a lone
/// quote.
pub open spec fn os_release_ok(raw: Seq<char>) -> bool {
    match first_id_line(lines(raw)) {
        Some(l) => strip_quotes_ok(l.skip(3)),
        None => true,
    }
}

/// The default text `ID=linux` has the id `linux`.
proof fn lemma_os_release_default()
    ensures
        os_release_ok("ID=linux"@),
{
    reveal_strlit("ID=linux");
    reveal_strlit("ID=");
    let s = "ID=linux"@;
    assert(crate::text::find_from(s, seq!['\n'], 0) is None) by {
        crate::text::lemma_find_from_bounds(s, seq!['\n'], 0);
        if crate::text::find_from(s, seq!['\n'], 0) is Some {
            let k = crate::text::find_from(s, seq!['\n'], 0).unwrap();
            assert(s.subrange(k, k + 1)[0] == s[k]);
        }
    }
    assert(lines(s) =~= seq![s.subrange(0, s.len() as int)]);
    assert(s.subrange(0, s.len() as int) =~= s);
    assert(starts_with(s, "ID="@)) by {
        assert(s.take(3) =~= "ID="@);
    }
    assert(trim(s.skip(3)) =~= s.skip(3)) by {
        assert(!crate::text::is_ws(s.skip(3)[0]));
        assert(!crate::text::is_ws(s.skip(3).last()));
    }
}

/// Parse the distribution id from the text of `/etc/os-release`.
pub fn parse_os_release_id(raw: &str) -> (res: String)
    requires
        os_release_ok(raw@),
    ensures
        res@ == os_release_id(raw@),
{
    let ls = lines_of(&chars_of(raw));
    let prefix = chars_of("ID=");
    proof {
        reveal_strlit("ID=");
    }
    let mut i: usize = 0;
    assert(vv(ls@).skip(0) =~= vv(ls@));
    while i < ls.len()
        invariant
            i <= ls.len(),
            vv(ls@) == lines(raw@),
            prefix@ == "ID="@,
            prefix@.len() == 3,
            first_id_line(lines(raw@)) == first_id_line(vv(ls@).skip(i as int)),
            os_release_ok(raw@),
        decreases ls.len() - i,
    {
        assert(vv(ls@).skip(i as int).drop_first() =~= vv(ls@).skip(i + 1));
        if starts_with_exec(&ls[i], &prefix) {
            let value = sub_chars(&ls[i], 3, ls[i].len());
            assert(value@ =~= ls@[i as int]@.skip(3));
            let v = string_from_chars(&value);
            let unquoted = strip_quotes(v.as_str());
            return to_lowercase(unquoted.as_str());
        }
        i = i + 1;
    }
    "linux".to_string()
}

/// How a package or check ended.
#[derive(Debug, Clone, Copy, PartialEq, Eq, Structural)]
pub enum Status {
    Already,
    Installed,
    Failed,
    Skipped,
}

/// Outcome of an `Installer::ensure` call.
#[derive(Debug, Clone, PartialEq, Eq)]
pub struct InstallResult {
    pub package: String,
    pub status: Status,
    pub note: String,
}

impl InstallResult {
    pub fn already(pkg: &str) -> (res: Self)
        ensures
            res.package@ == pkg@,
            res.status == Status::Already,
            res.note@ == "already present"@,
    {
        InstallResult { package: pkg.to_string(), status: Status::Already, note: "already present".to_string() }
    }

    pub fn installed(pkg: &str) -> (res: Self)
        ensures
            res.package@ == pkg@,
            res.status == Status::Installed,
            res.note@ == "installed"@,
    {
        InstallResult { package: pkg.to_string(), status: Status::Installed, note: "installed".to_string() }
    }

    pub fn failed(pkg: &str, note: &str) -> (res: Self)
        ensures
            res.package@ == pkg@,
            res.status == Status::Failed,
            res.note@ == note@,
    {
        InstallResult { package: pkg.to_string(), status: Status::Failed, note: note.to_string() }
    }

    pub fn skipped(pkg: &str, note: &str) -> (res: Self)
        ensures
            res.package@ == pkg@,
            res.status == Status::Skipped,
            res.note@ == note@,
    {
        InstallResult { package: pkg.to_string(), status: Status::Skipped, note: note.to_string() }
    }
}

fn failed_with(pkg: &str, prefix: &str, detail: &str) -> (res: InstallResult)
    ensures
        res.package@ == pkg@,
        res.status == Status::Failed,
        res.note@ == prefix@ + detail@,
{
    let mut n = chars_of(prefix);
    push_str(&mut n, detail);
    let note = string_from_chars(&n);
    InstallResult::failed(pkg, note.as_str())
}

/// Where an ensure stands: before the first check, after an install, or
/// done.
#[derive(Debug)]
pub enum EnsureStep {
    /// Run the check.
    Check,
    /// Run the install.
    Install,
    /// Run the check again to verify the install.
    Verify,
    /// Finished with this result.
    Done(InstallResult),
}

/// What the last command of an ensure reported: a check's answer, an
/// install that went through, or the error text of either.
#[derive(Debug)]
pub enum EnsureEvent {
    Checked(bool),
    InstallOk,
    Error(String),
}

/// One step of the idempotent ensure `check → skip-or-install →
/// re-verify`: present at the first check means already there; absent means
/// install, then check again; an install that reports success while the
/// check still fails is a failure; each error is a failure that says where.
pub fn ensure_step(package: &str, step: EnsureStep, event: EnsureEvent) -> (res: EnsureStep)
    requires
        !(step is Done),
    ensures
        step is Check ==> match event {
            EnsureEvent::Checked(true) => res matches EnsureStep::Done(r) && r.package@ == package@
                && r.status == Status::Already && r.note@ == "already present"@,
            EnsureEvent::Checked(false) => res is Install,
            EnsureEvent::Error(e) => res matches EnsureStep::Done(r) && r.package@ == package@
                && r.status == Status::Failed && r.note@ == "check failed: "@ + e@,
            EnsureEvent::InstallOk => res is Install,
        },
        step is Install ==> match event {
            EnsureEvent::Error(e) => res matches EnsureStep::Done(r) && r.package@ == package@
                && r.status == Status::Failed && r.note@ == "install failed: "@ + e@,
            _ => res is Verify,
        },
        step is Verify ==> match event {
            EnsureEvent::Checked(true) => res matches EnsureStep::Done(r) && r.package@ == package@
                && r.status == Status::Installed && r.note@ == "installed"@,
            EnsureEvent::Error(e) => res matches EnsureStep::Done(r) && r.package@ == package@
                && r.status == Status::Failed && r.note@ == "re-verify failed: "@ + e@,
            _ => res matches EnsureStep::Done(r) && r.package@ == package@ && r.status
                == Status::Failed && r.note@ == "install reported success but check still fails"@,
        },
{
    match step {
        EnsureStep::Check => match event {
            EnsureEvent::Checked(true) => EnsureStep::Done(InstallResult::already(package)),
            EnsureEvent::Error(e) => EnsureStep::Done(failed_with(package, "check failed: ", e.as_str())),
            _ => EnsureStep::Install,
        },
        EnsureStep::Install => match event {
            EnsureEvent::Error(e) => EnsureStep::Done(
                failed_with(package, "install failed: ", e.as_str()),
            ),
            _ => EnsureStep::Verify,
        },
        _ => match event {
            EnsureEvent::Checked(true) => EnsureStep::Done(InstallResult::installed(package)),
            EnsureEvent::Error(e) => EnsureStep::Done(
                failed_with(package, "re-verify failed: ", e.as_str()),
            ),
            _ => EnsureStep::Done(
                InstallResult::failed(package, "install reported success but check still fails"),
            ),
        },
    }
}

/// What a command run through the shell gave back.
#[derive(Debug)]
pub struct CommandOutput {
    pub success: bool,
    pub code: Option<i32>,
    pub stdout: String,
    pub stderr: String,
}

/// An exit code as `{:?}` writes an `Option<i32>`.
pub open spec fn code_text(code: Option<i32>) -> Seq<char> {
    match code {
        Some(c) => "Some("@ + signed_dec(c as int) + ")"@,
        None => "None"@,
    }
}

/// The exit code as `{:?}` writes it.
pub fn code_debug(code: Option<i32>) -> (res: String)
    ensures
        res@ == code_text(code),
{
    match code {
        Some(c) => {
            let mut out = chars_of("Some(");
            push_chars(&mut out, &signed_dec_chars(c as i128));
            push_str(&mut out, ")");
            string_from_chars(&out)
        },
        None => "None".to_string(),
    }
}

/// Homebrew installer. Works on macOS and Linux (linuxbrew).
pub struct BrewInstaller;

impl BrewInstaller {
    /// Short id for status reporting.
    pub fn name(&self) -> (res: &'static str)
        ensures
            res@ == "brew"@,
    {
        "brew"
    }

    /// The `brew` arguments that tell whether a package is installed.
    pub fn check_args(&self, package: &str) -> (res: Vec<String>)
        ensures
            res@.len() == 3,
            res@[0]@ == "list"@,
            res@[1]@ == "--versions"@,
            res@[2]@ == package@,
    {
        let mut v: Vec<String> = Vec::new();
        v.push("list".to_string());
        v.push("--versions".to_string());
        v.push(package.to_string());
        v
    }

    /// The `brew` arguments that install a package.
    pub fn install_args(&self, package: &str) -> (res: Vec<String>)
        ensures
            res@.len() == 2,
            res@[0]@ == "install"@,
            res@[1]@ == package@,
    {
        let mut v: Vec<String> = Vec::new();
        v.push("install".to_string());
        v.push(package.to_string());
        v
    }

    /// The error an install that exited with failure reports.
    pub fn install_failure(&self, package: &str, out: &CommandOutput) -> (res: String)
        ensures
            res@ == "brew install "@ + package@ + " failed (exit "@ + code_text(out.code) + "): "@
                + trim(out.stderr@),
    {
        let mut m = chars_of("brew install ");
        push_str(&mut m, package);
        push_str(&mut m, " failed (exit ");
        let c = code_debug(out.code);
        push_str(&mut m, c.as_str());
        push_str(&mut m, "): ");
        push_chars(&mut m, &trim_chars(&chars_of(out.stderr.as_str())));
        string_from_chars(&m)
    }
}

/// A row of the post-install report.
#[derive(Debug)]
pub struct PostRow {
    pub section: String,
    pub item: String,
    pub status: Status,
    pub note: String,
}

fn post_row(item: &str, status: Status, note: &str) -> (res: PostRow)
    ensures
        res.section@ == "post"@,
        res.item@ == item@,
        res.status == status,
        res.note@ == note@,
{
    PostRow { section: "post".to_string(), item: item.to_string(), status, note: note.to_string() }
}

fn post_row_with(item: &str, status: Status, prefix: &str, detail: &str, suffix: &str) -> (res: PostRow)
    ensures
        res.section@ == "post"@,
        res.item@ == item@,
        res.status == status,
        res.note@ == prefix@ + detail@ + suffix@,
{
    let mut n = chars_of(prefix);
    push_str(&mut n, detail);
    push_str(&mut n, suffix);
    proof {
        reveal_strlit("");
    }
    let note = string_from_chars(&n);
    post_row(item, status, note.as_str())
}

/// Whether the configured brew packages include postgresql.
pub fn wants_postgres(brew_packages: &Vec<String>) -> (res: bool)
    ensures
        res == exists|i: int| 0 <= i < brew_packages@.len() && brew_packages@[i]@ == "postgresql"@,
{
    let mut i: usize = 0;
    while i < brew_packages.len()
        invariant
            i <= brew_packages.len(),
            forall|j: int| 0 <= j < i ==> brew_packages@[j]@ != "postgresql"@,
        decreases brew_packages.len() - i,
    {
        if chars_eq_str(&chars_of(brew_packages[i].as_str()), "postgresql") {
            return true;
        }
        i = i + 1;
    }
    false
}

/// Whether `brew services info postgresql --json` says the service runs.
pub open spec fn postgres_running_spec(info: Option<(bool, Seq<char>)>) -> bool {
    match info {
        Some((ok, stdout)) => ok && (contains(stdout, "\"running\":true"@) || contains(
            stdout,
            "\"running\": true"@,
        )),
        None => false,
    }
}

/// Whether the service info reports postgresql running; an info command
/// that failed or errored says no.
pub fn postgres_running(info: &Option<CommandOutput>) -> (res: bool)
    ensures
        res == postgres_running_spec(match info {
            Some(o) => Some((o.success, o.stdout@)),
            None => None,
        }),
{
    match info {
        Some(o) => {
            if !o.success {
                return false;
            }
            let s = chars_of(o.stdout.as_str());
            contains_exec(&s, &chars_of("\"running\":true")) || contains_exec(
                &s,
                &chars_of("\"running\": true"),
            )
        },
        None => false,
    }
}

/// The row for a postgresql service that already runs.
pub fn postgres_running_row() -> (res: PostRow)
    ensures
        res.section@ == "post"@,
        res.item@ == "postgresql"@,
        res.status == Status::Already,
        res.note@ == "brew service already running"@,
{
    post_row("postgresql", Status::Already, "brew service already running")
}

/// The row for an attempt to start postgresql: started when the command
/// succeeded; otherwise failed, with the exit code and error output, or the
/// shell's error.
pub fn postgres_start_row(outcome: &Result<CommandOutput, String>) -> (res: PostRow)
    ensures
        res.section@ == "post"@,
        res.item@ == "postgresql"@,
        outcome matches Ok(o) ==> if o.success {
            res.status == Status::Installed && res.note@ == "brew service started"@
        } else {
            res.status == Status::Failed && res.note@ == "brew services start failed (exit "@
                + code_text(o.code) + "): "@ + trim(o.stderr@)
        },
        outcome matches Err(e) ==> res.status == Status::Failed && res.note@ == "shell errored: "@
            + e@,
{
    proof {
        reveal_strlit("");
    }
    match outcome {
        Ok(o) => {
            if o.success {
                post_row("postgresql", Status::Installed, "brew service started")
            } else {
                let mut d = code_debug(o.code);
                let mut m = chars_of(d.as_str());
                push_str(&mut m, "): ");
                push_chars(&mut m, &trim_chars(&chars_of(o.stderr.as_str())));
                let detail = string_from_chars(&m);
                post_row_with(
                    "postgresql",
                    Status::Failed,
                    "brew services start failed (exit ",
                    detail.as_str(),
                    "",
                )
            }
        },
        Err(e) => post_row_with("postgresql", Status::Failed, "shell errored: ", e.as_str(), ""),
    }
}

/// The row of the `gh auth status` check.
pub fn gh_auth_row(outcome: &Result<CommandOutput, String>) -> (res: PostRow)
    ensures
        res.section@ == "post"@,
        res.item@ == "gh-auth"@,
        outcome matches Ok(o) ==> if o.success {
            res.status == Status::Already && res.note@ == "gh signed in"@
        } else {
            res.status == Status::Failed && res.note@ == "not signed in \u{2014} run `gh auth login`"@
        },
        outcome matches Err(e) ==> res.status == Status::Failed && res.note@ == "shell errored: "@
            + e@,
{
    proof {
        reveal_strlit("");
    }
    match outcome {
        Ok(o) => {
            if o.success {
                post_row("gh-auth", Status::Already, "gh signed in")
            } else {
                post_row("gh-auth", Status::Failed, "not signed in \u{2014} run `gh auth login`")
            }
        },
        Err(e) => post_row_with("gh-auth", Status::Failed, "shell errored: ", e.as_str(), ""),
    }
}

/// The row of the `ssh -T git@github.com` smoke test: authenticated when
/// either output says `successfully authenticated`, whatever the exit code.
pub fn ssh_smoke_row(outcome: &Result<CommandOutput, String>) -> (res: PostRow)
    ensures
        res.section@ == "post"@,
        res.item@ == "github-ssh"@,
        outcome matches Ok(o) ==> if contains(o.stdout@ + o.stderr@, "successfully authenticated"@) {
            res.status == Status::Already && res.note@ == "ssh -T git@github.com authenticated"@
        } else {
            res.status == Status::Failed && res.note@ == "no auth confirmation (exit "@ + code_text(
                o.code,
            ) + ")"@
        },
        outcome matches Err(e) ==> res.status == Status::Failed && res.note@ == "shell errored: "@
            + e@,
{
    proof {
        reveal_strlit("");
    }
    match outcome {
        Ok(o) => {
            let mut combined = chars_of(o.stdout.as_str());
            push_str(&mut combined, o.stderr.as_str());
            if contains_exec(&combined, &chars_of("successfully authenticated")) {
                post_row("github-ssh", Status::Already, "ssh -T git@github.com authenticated")
            } else {
                let c = code_debug(o.code);
                post_row_with("github-ssh", Status::Failed, "no auth confirmation (exit ", c.as_str(), ")")
            }
        },
        Err(e) => post_row_with("github-ssh", Status::Failed, "shell errored: ", e.as_str(), ""),
    }
}

} // verus!
