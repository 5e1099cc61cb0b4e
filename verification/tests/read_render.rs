use hu::read::types::{FileOutline, ItemKind, OutlineItem, ReadOutput};
use hu::read::diff::{format_diff, parse_diff_hunks, DiffHunk};

    #[test]
    fn format_diff_additions() {
        let diff = "+added line";
        let formatted = format_diff(diff);
        assert!(formatted.contains("\x1b[32m"));
        assert!(formatted.contains("+added line"));
    }

    #[test]
    fn format_diff_deletions() {
        let diff = "-removed line";
        let formatted = format_diff(diff);
        assert!(formatted.contains("\x1b[31m"));
        assert!(formatted.contains("-removed line"));
    }

    #[test]
    fn format_diff_hunk_header() {
        let diff = "@@ -1,3 +1,4 @@";
        let formatted = format_diff(diff);
        assert!(formatted.contains("\x1b[36m"));
    }

    #[test]
    fn format_diff_file_header() {
        let diff = "diff --git a/file.rs b/file.rs";
        let formatted = format_diff(diff);
        assert!(formatted.contains("\x1b[2m"));
    }

    #[test]
    fn diff_format_diff_no_changes() {
        let formatted = format_diff("No changes");
        assert_eq!(formatted, "No changes");
    }

    #[test]
    fn format_diff_preserves_context() {
        let diff = " unchanged line";
        let formatted = format_diff(diff);
        assert_eq!(formatted, " unchanged line");
    }

    #[test]
    fn format_diff_plus_header_not_green() {
        let diff = "+++ b/file.rs";
        let formatted = format_diff(diff);
        // Should not have green color code
        assert!(!formatted.contains("\x1b[32m"));
    }

    #[test]
    fn format_diff_minus_header_not_red() {
        let diff = "--- a/file.rs";
        let formatted = format_diff(diff);
        // Should not have red color code
        assert!(!formatted.contains("\x1b[31m"));
    }

    #[test]
    fn parse_diff_hunks_single() {
        let diff = "@@ -1,3 +1,4 @@";
        let hunks = parse_diff_hunks(diff);
        assert_eq!(hunks.len(), 1);
        assert_eq!(hunks[0].old_start, 1);
        assert_eq!(hunks[0].old_count, 3);
        assert_eq!(hunks[0].new_start, 1);
        assert_eq!(hunks[0].new_count, 4);
    }

    #[test]
    fn parse_diff_hunks_multiple() {
        let diff = "@@ -1,3 +1,4 @@\nsome content\n@@ -10,5 +11,6 @@";
        let hunks = parse_diff_hunks(diff);
        assert_eq!(hunks.len(), 2);
        assert_eq!(hunks[1].old_start, 10);
        assert_eq!(hunks[1].new_start, 11);
    }

    #[test]
    fn parse_diff_hunks_no_count() {
        let diff = "@@ -5 +5 @@";
        let hunks = parse_diff_hunks(diff);
        assert_eq!(hunks.len(), 1);
        assert_eq!(hunks[0].old_count, 1);
        assert_eq!(hunks[0].new_count, 1);
    }

    #[test]
    fn parse_diff_hunks_empty() {
        let diff = "no hunks here";
        let hunks = parse_diff_hunks(diff);
        assert!(hunks.is_empty());
    }

    #[test]
    fn diff_hunk_clone() {
        let hunk = DiffHunk {
            old_start: 1,
            old_count: 2,
            new_start: 3,
            new_count: 4,
        };
        let cloned = hunk.clone();
        assert_eq!(hunk, cloned);
    }

    #[test]
    fn diff_hunk_debug() {
        let hunk = DiffHunk {
            old_start: 1,
            old_count: 2,
            new_start: 3,
            new_count: 4,
        };
        let debug = format!("{:?}", hunk);
        assert!(debug.contains("DiffHunk"));
    }

    // Integration test - requires git repo

    #[test]
    fn format_diff_index_header() {
        let diff = "index abc123..def456 100644";
        let formatted = format_diff(diff);
        // Should have dim color
        assert!(formatted.contains("\x1b[2m"));
    }

    #[test]
    fn format_full_content() {
        let output = ReadOutput::Full("hello\nworld".to_string());
        let formatted = hu::read::display::format(&output);
        assert_eq!(formatted, "hello\nworld");
    }

    #[test]
    fn format_empty_outline() {
        let output = ReadOutput::Outline(FileOutline::new());
        let formatted = hu::read::display::format(&output);
        assert_eq!(formatted, "No outline items found");
    }

    #[test]
    fn format_outline_with_items() {
        let mut outline = FileOutline::new();
        outline.push(OutlineItem::new(
            10,
            "pub fn test()".to_string(),
            0,
            ItemKind::Function,
        ));
        let output = ReadOutput::Outline(outline);
        let formatted = hu::read::display::format(&output);
        assert!(formatted.contains("fn pub fn test()"));
        assert!(formatted.contains(":10"));
    }

    #[test]
    fn format_nested_outline() {
        let mut outline = FileOutline::new();
        outline.push(OutlineItem::new(
            1,
            "impl Config".to_string(),
            0,
            ItemKind::Impl,
        ));
        outline.push(OutlineItem::new(
            2,
            "pub fn new()".to_string(),
            1,
            ItemKind::Function,
        ));
        let output = ReadOutput::Outline(outline);
        let formatted = hu::read::display::format(&output);
        let lines: Vec<&str> = formatted.lines().collect();
        assert!(lines[0].starts_with("impl"));
        assert!(lines[1].starts_with("  fn")); // Indented
    }

    #[test]
    fn format_empty_interface() {
        let output = ReadOutput::Interface(vec![]);
        let formatted = hu::read::display::format(&output);
        assert_eq!(formatted, "No public interface items found");
    }

    #[test]
    fn format_interface_with_items() {
        let items = vec![OutlineItem::new(
            10,
            "pub fn test()".to_string(),
            0,
            ItemKind::Function,
        )];
        let output = ReadOutput::Interface(items);
        let formatted = hu::read::display::format(&output);
        assert!(formatted.contains("fn pub fn test()"));
        assert!(formatted.contains(":L10"));
    }

    #[test]
    fn format_around_lines() {
        let output = ReadOutput::Around {
            lines: vec![
                (9, "line9".to_string()),
                (10, "line10".to_string()),
                (11, "line11".to_string()),
            ],
            center: 10,
            total_lines: 11, // width is 2, so format is ">10: line10"
        };
        let formatted = hu::read::display::format(&output);
        assert!(formatted.contains(">10: line10"));
        assert!(formatted.contains(" 9: line9"));
    }

    #[test]
    fn format_diff_content() {
        let output = ReadOutput::Diff("+added line".to_string());
        let formatted = hu::read::display::format(&output);
        assert!(formatted.contains("+added line"));
        // Should have green color for additions
        assert!(formatted.contains("\x1b[32m"));
    }

    #[test]
    fn display_format_diff_no_changes() {
        let output = ReadOutput::Diff("No changes".to_string());
        let formatted = hu::read::display::format(&output);
        assert_eq!(formatted, "No changes");
    }
