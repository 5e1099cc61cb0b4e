use hu::ls::{
    color_for_type, colorize, effective_ls_args, enhance_long_line, enhance_output, enhance_simple_line, icon_for_entry,
    icon_for_name, parse_name_and_type, style_for_type, FileColors, FileType, LsColor, DEFAULT_ICON, DIR_ICON,
    EXEC_ICON, PIPE_ICON, SOCKET_ICON, SYMLINK_ICON,
};

#[test]
fn file_colors_rust() {
    let colors = FileColors::new();
    assert!(matches!(colors.for_extension("rs"), LsColor::Rgb(..)));
}

#[test]
fn file_colors_python() {
    let colors = FileColors::new();
    assert!(matches!(colors.for_extension("py"), LsColor::Rgb(..)));
}

#[test]
fn file_colors_case_insensitive() {
    let colors = FileColors::new();
    let upper = colors.for_extension("RS");
    let lower = colors.for_extension("rs");
    assert!(matches!(upper, LsColor::Rgb(..)));
    assert!(matches!(lower, LsColor::Rgb(..)));
}

#[test]
fn file_colors_unknown() {
    let colors = FileColors::new();
    assert!(matches!(
        colors.for_extension("xyz123unknown"),
        LsColor::Reset
    ));
}

#[test]
fn file_colors_special_types() {
    let colors = FileColors::new();
    assert!(matches!(colors.directory(), LsColor::Rgb(..)));
    assert!(matches!(colors.symlink(), LsColor::Rgb(..)));
    assert!(matches!(colors.executable(), LsColor::Rgb(..)));
    assert!(matches!(colors.pipe(), LsColor::Magenta));
    assert!(matches!(colors.socket(), LsColor::Magenta));
}

#[test]
fn default_trait() {
    let colors = FileColors::default();
    assert!(matches!(colors.for_extension("rs"), LsColor::Rgb(..)));
}

#[test]
fn enhance_empty() {
    assert_eq!(enhance_output("", false), "");
    assert_eq!(enhance_output("", true), "");
}

#[test]
fn enhance_simple_file() {
    let out = enhance_simple_line("main.rs");
    assert!(out.contains("main.rs"));
    // Should contain the Rust icon
    assert!(out.contains('\u{e7a8}'));
}

#[test]
fn enhance_simple_directory() {
    let out = enhance_simple_line("src/");
    assert!(out.contains("src"));
    // Should contain directory icon
    assert!(out.contains('\u{f115}'));
}

#[test]
fn enhance_simple_executable() {
    let out = enhance_simple_line("run*");
    assert!(out.contains("run"));
}

#[test]
fn enhance_simple_symlink() {
    let out = enhance_simple_line("link@");
    assert!(out.contains("link"));
}

#[test]
fn enhance_simple_empty_line() {
    assert_eq!(enhance_simple_line(""), "");
    assert_eq!(enhance_simple_line("  "), "");
}

#[test]
fn enhance_total_line_passthrough() {
    let out = enhance_simple_line("total 42");
    assert_eq!(out, "total 42");
}

#[test]
fn enhance_long_total_passthrough() {
    let out = enhance_long_line("total 128");
    assert_eq!(out, "total 128");
}

#[test]
fn enhance_long_regular_file() {
    let line = "-rw-r--r-- 1 chi staff 1.2K Feb 18 12:00 main.rs";
    let out = enhance_long_line(line);
    assert!(out.contains("main.rs"));
    assert!(out.contains('\u{e7a8}')); // Rust icon
}

#[test]
fn enhance_long_directory() {
    let line = "drwxr-xr-x 5 chi staff 160B Feb 18 12:00 src/";
    let out = enhance_long_line(line);
    assert!(out.contains("src"));
    assert!(out.contains('\u{f115}')); // Dir icon
}

#[test]
fn enhance_long_symlink() {
    let line = "lrwxr-xr-x 1 chi staff 24B Feb 18 12:00 link -> /target/path";
    let out = enhance_long_line(line);
    assert!(out.contains("link"));
    assert!(out.contains("target"));
}

#[test]
fn enhance_long_short_line_passthrough() {
    let out = enhance_long_line("short");
    assert_eq!(out, "short");
}

#[test]
fn enhance_long_empty_passthrough() {
    assert_eq!(enhance_long_line(""), "");
}

#[test]
fn enhance_output_multi_line() {
    let raw = "src/\nmain.rs\nCargo.toml";
    let out = enhance_output(raw, false);
    let lines: Vec<&str> = out.lines().collect();
    assert_eq!(lines.len(), 3);
}

#[test]
fn enhance_output_long_multi() {
    let raw = "total 8\n-rw-r--r-- 1 chi staff 100B Feb 18 12:00 file.txt";
    let out = enhance_output(raw, true);
    assert!(out.contains("total 8"));
    assert!(out.contains("file.txt"));
}

#[test]
fn parse_name_regular() {
    let (name, ft) = parse_name_and_type("main.rs");
    assert_eq!(name, "main.rs");
    assert_eq!(ft, FileType::Regular);
}

#[test]
fn parse_name_directory() {
    let (name, ft) = parse_name_and_type("src/");
    assert_eq!(name, "src");
    assert_eq!(ft, FileType::Directory);
}

#[test]
fn parse_name_executable() {
    let (name, ft) = parse_name_and_type("script*");
    assert_eq!(name, "script");
    assert_eq!(ft, FileType::Executable);
}

#[test]
fn parse_name_symlink() {
    let (name, ft) = parse_name_and_type("link@");
    assert_eq!(name, "link");
    assert_eq!(ft, FileType::Symlink);
}

#[test]
fn parse_name_pipe() {
    let (name, ft) = parse_name_and_type("fifo|");
    assert_eq!(name, "fifo");
    assert_eq!(ft, FileType::Pipe);
}

#[test]
fn parse_name_socket() {
    let (name, ft) = parse_name_and_type("sock=");
    assert_eq!(name, "sock");
    assert_eq!(ft, FileType::Socket);
}

#[test]
fn parse_name_empty() {
    let (name, ft) = parse_name_and_type("");
    assert_eq!(name, "");
    assert_eq!(ft, FileType::Regular);
}

#[test]
fn color_for_type_directory() {
    let c = color_for_type("src", FileType::Directory);
    assert!(matches!(c, LsColor::Rgb(..)));
}

#[test]
fn color_for_type_regular_with_ext() {
    let c = color_for_type("main.rs", FileType::Regular);
    assert!(matches!(c, LsColor::Rgb(..)));
}

#[test]
fn color_for_type_regular_unknown_ext() {
    let c = color_for_type("file.xyz123", FileType::Regular);
    assert_eq!(c, LsColor::White);
}

#[test]
fn colorize_bold_for_dirs() {
    let out = colorize("src", LsColor::Blue, FileType::Directory);
    // Should contain ANSI bold
    assert!(out.contains("\x1b["));
}

#[test]
fn colorize_no_bold_for_regular() {
    let out = colorize("file.txt", LsColor::White, FileType::Regular);
    assert!(out.contains("file.txt"));
}

#[test]
fn classify_directory() {
    assert_eq!(FileType::from_classify_char('/'), FileType::Directory);
}

#[test]
fn classify_executable() {
    assert_eq!(FileType::from_classify_char('*'), FileType::Executable);
}

#[test]
fn classify_symlink() {
    assert_eq!(FileType::from_classify_char('@'), FileType::Symlink);
}

#[test]
fn classify_pipe() {
    assert_eq!(FileType::from_classify_char('|'), FileType::Pipe);
}

#[test]
fn classify_socket() {
    assert_eq!(FileType::from_classify_char('='), FileType::Socket);
}

#[test]
fn classify_regular() {
    assert_eq!(FileType::from_classify_char(' '), FileType::Regular);
    assert_eq!(FileType::from_classify_char('x'), FileType::Regular);
}

#[test]
fn file_type_icons() {
    assert_eq!(FileType::Directory.icon(), DIR_ICON);
    assert_eq!(FileType::Executable.icon(), EXEC_ICON);
    assert_eq!(FileType::Symlink.icon(), SYMLINK_ICON);
    assert_eq!(FileType::Pipe.icon(), PIPE_ICON);
    assert_eq!(FileType::Socket.icon(), SOCKET_ICON);
    assert_eq!(FileType::Regular.icon(), DEFAULT_ICON);
}

#[test]
fn icon_for_name_rust() {
    assert_eq!(icon_for_name("main.rs"), "\u{e7a8}");
}

#[test]
fn icon_for_name_python() {
    assert_eq!(icon_for_name("script.py"), "\u{e73c}");
}

#[test]
fn icon_for_name_unknown() {
    assert_eq!(icon_for_name("unknown.xyz123"), DEFAULT_ICON);
}

#[test]
fn icon_for_name_no_extension() {
    assert_eq!(icon_for_name("Makefile"), DEFAULT_ICON);
}

#[test]
fn icon_for_name_strips_classify() {
    // File with classify indicator
    assert_eq!(icon_for_name("main.rs*"), "\u{e7a8}");
    // icon_for_name only knows extensions, not types — "src" has no extension
    assert_eq!(icon_for_name("src/"), DEFAULT_ICON);
}

#[test]
fn icon_for_entry_dir_overrides_ext() {
    // Even if name looks like a file, dir type wins
    assert_eq!(
        icon_for_entry("something.rs", FileType::Directory),
        DIR_ICON
    );
}

#[test]
fn icon_for_entry_regular_uses_ext() {
    assert_eq!(icon_for_entry("main.rs", FileType::Regular), "\u{e7a8}");
}

#[test]
fn icon_for_entry_exec_overrides_ext() {
    assert_eq!(icon_for_entry("script.sh", FileType::Executable), EXEC_ICON);
}

#[test]
fn icon_for_name_case_insensitive() {
    // Upper case extension should still match
    assert_eq!(icon_for_name("FILE.RS"), "\u{e7a8}");
    assert_eq!(icon_for_name("DATA.JSON"), "\u{e60b}");
}

#[test]
fn style_for_type_coverage() {
    // Just ensure all variants produce a style
    let variants = [
        FileType::Directory,
        FileType::Symlink,
        FileType::Executable,
        FileType::Pipe,
        FileType::Socket,
        FileType::Regular,
    ];
    for ft in variants {
        let _style = style_for_type(ft);
    }
}

#[test]
fn style_for_type_values() {
    assert_eq!(style_for_type(FileType::Directory), (LsColor::Rgb(0x5C, 0x9D, 0xFF), true));
    assert_eq!(style_for_type(FileType::Executable), (LsColor::Rgb(0x00, 0xFF, 0x00), true));
    assert_eq!(style_for_type(FileType::Pipe), (LsColor::Magenta, false));
    assert_eq!(style_for_type(FileType::Regular), (LsColor::White, false));
}

#[test]
fn long_line_layout() {
    let out = enhance_long_line("drwxr-xr-x 5 chi staff 160B Feb 18 12:00 src/");
    assert!(out.starts_with("drwxr-xr-x 5 chi staff 160B Feb 18 12:00 \u{f115} "));
    assert!(!out.ends_with('/'));
    let link = enhance_long_line("lrwxr-xr-x 1 chi staff 24B Feb 18 12:00 link -> /target/path");
    assert!(link.contains("\u{f0c1} "));
    assert!(link.contains(" -> /target/path"));
}

#[test]
fn colorize_exact_sequences() {
    let bold = colorize("src", LsColor::Blue, FileType::Directory);
    assert!(
        bold == "\x1b[38;5;12m\x1b[1msrc\x1b[0m" || bold == "\x1b[m\x1b[1msrc\x1b[0m",
        "{:?}",
        bold
    );
    let plain = colorize("a.rs", LsColor::Rgb(0xDE, 0xA5, 0x84), FileType::Regular);
    assert!(
        plain == "\x1b[38;2;222;165;132ma.rs\x1b[39m" || plain == "\x1b[ma.rs\x1b[m",
        "{:?}",
        plain
    );
}

#[test]
fn enhance_simple_exact() {
    let out = enhance_simple_line("notes.xyz");
    assert!(
        out == "\u{f15b} \x1b[38;5;15mnotes.xyz\x1b[39m" || out == "\u{f15b} \x1b[mnotes.xyz\x1b[m",
        "{:?}",
        out
    );
}

#[test]
fn ls_args_force_single_column() {
    let args = vec!["/tmp".to_string()];
    assert_eq!(effective_ls_args(&args, false, false), vec!["--color=never", "-1", "/tmp"]);
    let long = vec!["-l".to_string(), "/tmp".to_string()];
    assert_eq!(effective_ls_args(&long, true, false), vec!["--color=never", "-l", "/tmp"]);
    let single = vec!["-1".to_string()];
    assert_eq!(effective_ls_args(&single, false, true), vec!["--color=never", "-1"]);
}
