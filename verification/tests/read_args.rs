use hu::read::args::ReadArgs;

fn args(path: &str) -> ReadArgs {
    ReadArgs {
        path: path.to_string(),
        outline: false,
        interface: false,
        around: None,
        context: 10,
        diff: false,
        commit: "HEAD".to_string(),
    }
}

#[test]
fn has_mode_none() {
    let read = args("file.rs");
    assert!(!read.has_mode());
}

#[test]
fn has_mode_outline() {
    let mut read = args("file.rs");
    read.outline = true;
    assert!(read.has_mode());
}

#[test]
fn has_mode_interface() {
    let mut read = args("file.rs");
    read.interface = true;
    assert!(read.has_mode());
}

#[test]
fn has_mode_around() {
    let mut read = args("file.rs");
    read.around = Some(50);
    assert!(read.has_mode());
}

#[test]
fn has_mode_diff() {
    let mut read = args("file.rs");
    read.diff = true;
    assert!(read.has_mode());
}

#[test]
fn read_args_debug() {
    let read = args("file.rs");
    let debug = format!("{:?}", read);
    assert!(debug.contains("ReadArgs"));
}
