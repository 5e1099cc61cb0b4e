use hu::context::{entries_newest_first, file_status_line, summary_lines, tracked_line, ContextEntry, ContextState, FileStatus};

fn entry(p: &str, size: u64, lines: usize, at: u64) -> ContextEntry {
    ContextEntry::with_timestamp(p.to_string(), size, lines, at)
}

#[test]
fn summary_newest_first_and_totals() {
    let mut state = ContextState::new("test".to_string());
    state.track(entry("/a.rs", 100, 10, 1000));
    state.track(entry("/b.rs", 2048, 20, 2000));
    state.track(entry("/c.rs", 1, 1, 1000));
    let lines = summary_lines(&state, 2060);
    assert_eq!(
        lines,
        vec![
            "Session: test",
            "",
            "  /b.rs (20 lines, 2.0 KB) - 1m ago",
            "  /a.rs (10 lines, 100 B) - 17m ago",
            "  /c.rs (1 lines, 1 B) - 17m ago",
            "",
            "Total: 3 files, 31 lines, 2.1 KB",
        ]
    );
}

#[test]
fn summary_of_nothing() {
    let state = ContextState::new("x".to_string());
    assert_eq!(summary_lines(&state, 5), vec!["No files tracked in context"]);
}

#[test]
fn newest_first_is_stable() {
    let es = vec![entry("/1", 1, 1, 5), entry("/2", 1, 1, 9), entry("/3", 1, 1, 5), entry("/4", 1, 1, 7)];
    let sorted: Vec<String> = entries_newest_first(&es).into_iter().map(|e| e.path).collect();
    assert_eq!(sorted, vec!["/2", "/4", "/1", "/3"]);
}

#[test]
fn status_and_tracked_lines() {
    let loaded = FileStatus::Loaded { entry: entry("/a.rs", 5, 3, 0), age_secs: 7200 };
    assert_eq!(file_status_line(&loaded), "/a.rs: loaded 2h ago (3 lines)");
    let not = FileStatus::NotLoaded { path: "/b.rs".to_string(), size: 1, line_count: 4 };
    assert_eq!(file_status_line(&not), "/b.rs: not loaded (4 lines)");
    assert_eq!(tracked_line(&entry("/c.rs", 99, 2, 0)), "Tracked: /c.rs (2 lines, 99 bytes)");
}
