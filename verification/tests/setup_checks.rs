use hu::setup::{
    code_debug, ensure_step, gh_auth_row, postgres_running, postgres_running_row, postgres_start_row, ssh_smoke_row,
    strip_quotes, wants_postgres, BrewInstaller, CommandOutput, EnsureEvent, EnsureStep,
    InstallResult, Os, Status,
};

fn out(success: bool, code: Option<i32>, stdout: &str, stderr: &str) -> CommandOutput {
    CommandOutput { success, code, stdout: stdout.to_string(), stderr: stderr.to_string() }
}

fn done(step: EnsureStep) -> InstallResult {
    match step {
        EnsureStep::Done(r) => r,
        other => panic!("expected a result, got {:?}", other),
    }
}

#[test]
fn install_result_constructors() {
    let r = InstallResult::already("git");
    assert_eq!((r.package.as_str(), r.status, r.note.as_str()), ("git", Status::Already, "already present"));
    let r = InstallResult::installed("git");
    assert_eq!((r.status, r.note.as_str()), (Status::Installed, "installed"));
    let r = InstallResult::failed("git", "boom");
    assert_eq!((r.status, r.note.as_str()), (Status::Failed, "boom"));
    let r = InstallResult::skipped("git", "not needed");
    assert_eq!((r.status, r.note.as_str()), (Status::Skipped, "not needed"));
}

#[test]
fn os_from_host() {
    assert_eq!(Os::from_host("macos", None), Os::Mac);
    assert_eq!(Os::from_host("linux", None), Os::Linux { distro: "linux".to_string() });
    assert_eq!(Os::from_host("linux", Some("ID=Debian\n")), Os::Linux { distro: "debian".to_string() });
    assert_eq!(Os::from_host("freebsd", None), Os::Other { name: "freebsd".to_string() });
}

#[test]
fn quotes_stripped() {
    assert_eq!(strip_quotes("  \"x\" "), "x");
    assert_eq!(strip_quotes("'y'"), "y");
    assert_eq!(strip_quotes("\"z'"), "\"z'");
    assert_eq!(strip_quotes("\"\""), "");
}

#[test]
fn ensure_already_installed() {
    let r = done(ensure_step("jq", EnsureStep::Check, EnsureEvent::Checked(true)));
    assert_eq!((r.status, r.note.as_str()), (Status::Already, "already present"));
}

#[test]
fn ensure_installs_then_verifies() {
    let s = ensure_step("jq", EnsureStep::Check, EnsureEvent::Checked(false));
    assert!(matches!(s, EnsureStep::Install));
    let s = ensure_step("jq", s, EnsureEvent::InstallOk);
    assert!(matches!(s, EnsureStep::Verify));
    let r = done(ensure_step("jq", s, EnsureEvent::Checked(true)));
    assert_eq!((r.status, r.note.as_str()), (Status::Installed, "installed"));
}

#[test]
fn ensure_failures_say_where() {
    let r = done(ensure_step("jq", EnsureStep::Check, EnsureEvent::Error("no brew".to_string())));
    assert_eq!(r.note, "check failed: no brew");
    let r = done(ensure_step("jq", EnsureStep::Install, EnsureEvent::Error("exit 1".to_string())));
    assert_eq!(r.note, "install failed: exit 1");
    let r = done(ensure_step("jq", EnsureStep::Verify, EnsureEvent::Checked(false)));
    assert_eq!(r.note, "install reported success but check still fails");
    let r = done(ensure_step("jq", EnsureStep::Verify, EnsureEvent::Error("gone".to_string())));
    assert_eq!((r.status, r.note.as_str()), (Status::Failed, "re-verify failed: gone"));
}

#[test]
fn brew_commands() {
    let b = BrewInstaller;
    assert_eq!(b.name(), "brew");
    assert_eq!(b.check_args("jq"), vec!["list", "--versions", "jq"]);
    assert_eq!(b.install_args("jq"), vec!["install", "jq"]);
    assert_eq!(
        b.install_failure("jq", &out(false, Some(1), "", "  Error: no formula \n")),
        "brew install jq failed (exit Some(1)): Error: no formula"
    );
    assert_eq!(code_debug(None), "None");
    assert_eq!(code_debug(Some(-2)), "Some(-2)");
}

#[test]
fn postgres_checks() {
    assert!(wants_postgres(&vec!["git".to_string(), "postgresql".to_string()]));
    assert!(!wants_postgres(&vec!["postgresql@16".to_string()]));
    assert!(postgres_running(&Some(out(true, Some(0), "{\"running\":true}", ""))));
    assert!(postgres_running(&Some(out(true, Some(0), "{\"running\": true}", ""))));
    assert!(!postgres_running(&Some(out(false, Some(1), "{\"running\":true}", ""))));
    assert!(!postgres_running(&None));
    let r = postgres_running_row();
    assert_eq!((r.status, r.note.as_str()), (Status::Already, "brew service already running"));
    let r = postgres_start_row(&Ok(out(true, Some(0), "", "")));
    assert_eq!((r.item.as_str(), r.status, r.note.as_str()), ("postgresql", Status::Installed, "brew service started"));
    let r = postgres_start_row(&Ok(out(false, Some(3), "", " bad ")));
    assert_eq!(r.note, "brew services start failed (exit Some(3)): bad");
    let r = postgres_start_row(&Err("no shell".to_string()));
    assert_eq!(r.note, "shell errored: no shell");
}

#[test]
fn gh_and_ssh_checks() {
    let r = gh_auth_row(&Ok(out(true, Some(0), "", "")));
    assert_eq!((r.section.as_str(), r.status), ("post", Status::Already));
    let r = gh_auth_row(&Ok(out(false, Some(1), "", "")));
    assert_eq!(r.note, "not signed in \u{2014} run `gh auth login`");
    let r = ssh_smoke_row(&Ok(out(false, Some(1), "", "Hi x! You've successfully authenticated, but")));
    assert_eq!(r.status, Status::Already);
    let r = ssh_smoke_row(&Ok(out(false, Some(255), "", "Permission denied")));
    assert_eq!(r.note, "no auth confirmation (exit Some(255))");
    let r = ssh_smoke_row(&Err("e".to_string()));
    assert_eq!(r.note, "shell errored: e");
}
