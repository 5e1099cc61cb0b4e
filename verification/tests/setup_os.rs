use hu::setup::{parse_os_release_id, Os};

#[test]
fn parses_ubuntu_id() {
    let raw = r#"NAME="Ubuntu"
ID=ubuntu
VERSION_ID="24.04"
"#;
    assert_eq!(parse_os_release_id(raw), "ubuntu");
}

#[test]
fn parses_quoted_id() {
    let raw = "ID=\"debian\"\n";
    assert_eq!(parse_os_release_id(raw), "debian");
}

#[test]
fn parses_single_quoted_id() {
    let raw = "ID='arch'\n";
    assert_eq!(parse_os_release_id(raw), "arch");
}

#[test]
fn lowercases_id() {
    let raw = "ID=Fedora\n";
    assert_eq!(parse_os_release_id(raw), "fedora");
}

#[test]
fn falls_back_when_no_id() {
    let raw = "NAME=Foo\nVERSION=1.0\n";
    assert_eq!(parse_os_release_id(raw), "linux");
}

#[test]
fn empty_input_falls_back() {
    assert_eq!(parse_os_release_id(""), "linux");
}

#[test]
fn label_for_macos() {
    assert_eq!(Os::Mac.label(), "macOS");
}

#[test]
fn label_for_linux_includes_distro() {
    let os = Os::Linux {
        distro: "ubuntu".into(),
    };
    assert_eq!(os.label(), "linux (ubuntu)");
}

#[test]
fn label_for_other() {
    let os = Os::Other {
        name: "freebsd".into(),
    };
    assert_eq!(os.label(), "freebsd");
}

#[test]
fn predicates_match_variant() {
    assert!(Os::Mac.is_macos());
    assert!(!Os::Mac.is_linux());
    let linux = Os::Linux {
        distro: "ubuntu".into(),
    };
    assert!(linux.is_linux());
    assert!(!linux.is_macos());
}
