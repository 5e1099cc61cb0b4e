use hu::context::{current_timestamp, format_age, format_bytes, get_file_status, ContextEntry, ContextState, FileStatus};

#[test]
fn context_entry_new() {
    let entry = ContextEntry::new(String::from("/test/file.rs"), 1024, 50);
    assert_eq!(entry.path, String::from("/test/file.rs"));
    assert_eq!(entry.size, 1024);
    assert_eq!(entry.line_count, 50);
    assert!(entry.tracked_at > 0);
}

#[test]
fn context_entry_with_timestamp() {
    let entry = ContextEntry::with_timestamp(String::from("/test.rs"), 512, 25, 1000);
    assert_eq!(entry.tracked_at, 1000);
}

#[test]
fn context_entry_clone() {
    let entry = ContextEntry::new(String::from("/test.rs"), 100, 10);
    let cloned = entry.clone();
    assert_eq!(entry, cloned);
}

#[test]
fn context_entry_debug() {
    let entry = ContextEntry::new(String::from("/test.rs"), 100, 10);
    let debug = format!("{:?}", entry);
    assert!(debug.contains("ContextEntry"));
}

#[test]
fn context_state_new() {
    let state = ContextState::new("session123".to_string());
    assert_eq!(state.session_id, "session123");
    assert!(state.entries.is_empty());
}

#[test]
fn context_state_default() {
    let state = ContextState::default();
    assert_eq!(state.session_id, "");
    assert!(state.entries.is_empty());
}

#[test]
fn context_state_track() {
    let mut state = ContextState::new("s1".to_string());
    let entry = ContextEntry::new(String::from("/a.rs"), 100, 10);
    state.track(entry.clone());

    assert_eq!(state.file_count(), 1);
    assert!(state.is_tracked(&String::from("/a.rs")));
}

#[test]
fn context_state_get() {
    let mut state = ContextState::new("s1".to_string());
    let entry = ContextEntry::with_timestamp(String::from("/a.rs"), 100, 10, 500);
    state.track(entry);

    let got = state.get(&String::from("/a.rs")).unwrap();
    assert_eq!(got.size, 100);
    assert_eq!(got.line_count, 10);
}

#[test]
fn context_state_get_missing() {
    let state = ContextState::new("s1".to_string());
    assert!(state.get(&String::from("/missing.rs")).is_none());
}

#[test]
fn context_state_is_tracked() {
    let mut state = ContextState::new("s1".to_string());
    state.track(ContextEntry::new(String::from("/yes.rs"), 1, 1));

    assert!(state.is_tracked(&String::from("/yes.rs")));
    assert!(!state.is_tracked(&String::from("/no.rs")));
}

#[test]
fn context_state_all_entries() {
    let mut state = ContextState::new("s1".to_string());
    state.track(ContextEntry::new(String::from("/a.rs"), 100, 10));
    state.track(ContextEntry::new(String::from("/b.rs"), 200, 20));

    let entries = state.all_entries();
    assert_eq!(entries.len(), 2);
}

#[test]
fn context_state_clear() {
    let mut state = ContextState::new("s1".to_string());
    state.track(ContextEntry::new(String::from("/a.rs"), 100, 10));
    assert_eq!(state.file_count(), 1);

    state.clear();
    assert_eq!(state.file_count(), 0);
}

#[test]
fn context_state_totals() {
    let mut state = ContextState::new("s1".to_string());
    state.track(ContextEntry::new(String::from("/a.rs"), 100, 10));
    state.track(ContextEntry::new(String::from("/b.rs"), 200, 20));

    assert_eq!(state.total_bytes(), 300);
    assert_eq!(state.total_lines(), 30);
}

#[test]
fn context_state_update_existing() {
    let mut state = ContextState::new("s1".to_string());
    state.track(ContextEntry::with_timestamp(
        String::from("/a.rs"),
        100,
        10,
        1,
    ));
    state.track(ContextEntry::with_timestamp(
        String::from("/a.rs"),
        200,
        20,
        2,
    ));

    assert_eq!(state.file_count(), 1);
    let entry = state.get(&String::from("/a.rs")).unwrap();
    assert_eq!(entry.size, 200);
    assert_eq!(entry.tracked_at, 2);
}

#[test]
fn context_state_clone() {
    let mut state = ContextState::new("s1".to_string());
    state.track(ContextEntry::new(String::from("/a.rs"), 100, 10));

    let cloned = state.clone();
    assert_eq!(state, cloned);
}

#[test]
fn context_state_debug() {
    let state = ContextState::new("s1".to_string());
    let debug = format!("{:?}", state);
    assert!(debug.contains("ContextState"));
}

#[test]
fn file_status_loaded() {
    let entry = ContextEntry::with_timestamp(String::from("/a.rs"), 100, 10, 1);
    let status = FileStatus::Loaded {
        entry: entry.clone(),
        age_secs: 60,
    };
    if let FileStatus::Loaded { entry: e, age_secs } = status {
        assert_eq!(e.path, String::from("/a.rs"));
        assert_eq!(age_secs, 60);
    } else {
        panic!("Expected Loaded");
    }
}

#[test]
fn file_status_not_loaded() {
    let status = FileStatus::NotLoaded {
        path: String::from("/b.rs"),
        size: 500,
        line_count: 50,
    };
    if let FileStatus::NotLoaded {
        path,
        size,
        line_count,
    } = status
    {
        assert_eq!(path, String::from("/b.rs"));
        assert_eq!(size, 500);
        assert_eq!(line_count, 50);
    } else {
        panic!("Expected NotLoaded");
    }
}

#[test]
fn file_status_clone() {
    let status = FileStatus::NotLoaded {
        path: String::from("/a.rs"),
        size: 100,
        line_count: 10,
    };
    let cloned = status.clone();
    assert_eq!(status, cloned);
}

#[test]
fn file_status_debug() {
    let status = FileStatus::NotLoaded {
        path: String::from("/a.rs"),
        size: 100,
        line_count: 10,
    };
    let debug = format!("{:?}", status);
    assert!(debug.contains("NotLoaded"));
}

#[test]
fn format_age_seconds() {
    assert_eq!(format_age(0), "0s ago");
    assert_eq!(format_age(30), "30s ago");
    assert_eq!(format_age(59), "59s ago");
}

#[test]
fn format_age_minutes() {
    assert_eq!(format_age(60), "1m ago");
    assert_eq!(format_age(120), "2m ago");
    assert_eq!(format_age(3599), "59m ago");
}

#[test]
fn format_age_hours() {
    assert_eq!(format_age(3600), "1h ago");
    assert_eq!(format_age(7200), "2h ago");
    assert_eq!(format_age(86399), "23h ago");
}

#[test]
fn format_age_days() {
    assert_eq!(format_age(86400), "1d ago");
    assert_eq!(format_age(172800), "2d ago");
}

#[test]
fn format_bytes_b() {
    assert_eq!(format_bytes(0), "0 B");
    assert_eq!(format_bytes(512), "512 B");
    assert_eq!(format_bytes(1023), "1023 B");
}

#[test]
fn format_bytes_kb() {
    assert_eq!(format_bytes(1024), "1.0 KB");
    assert_eq!(format_bytes(2048), "2.0 KB");
    assert_eq!(format_bytes(1536), "1.5 KB");
}

#[test]
fn format_bytes_mb() {
    assert_eq!(format_bytes(1024 * 1024), "1.0 MB");
    assert_eq!(format_bytes(2 * 1024 * 1024), "2.0 MB");
}

#[test]
fn get_file_status_loaded() {
    let mut state = ContextState::new("s".to_string());
    state.track(ContextEntry::with_timestamp(
        String::from("/test.rs"),
        100,
        10,
        1000,
    ));

    let status = get_file_status(&state, "/test.rs", 1060, (0, 0));
    if let FileStatus::Loaded { entry, age_secs } = status {
        assert_eq!(entry.size, 100);
        assert_eq!(entry.line_count, 10);
        assert_eq!(age_secs, 60);
    } else {
        panic!("Expected Loaded");
    }
}

#[test]
fn current_timestamp_returns_value() {
    let ts = current_timestamp();
    // Should be a reasonable Unix timestamp (after 2020)
    assert!(ts > 1577836800);
}

#[test]
fn get_file_status_not_loaded() {
    let state = ContextState::new("s".to_string());
    let status = get_file_status(&state, "/project/Cargo.toml", 1000, (512, 20));
    assert!(matches!(status, FileStatus::NotLoaded { .. }));
}
