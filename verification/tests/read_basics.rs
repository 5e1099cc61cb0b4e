use hu::read::types::{FileOutline, ItemKind, OutlineItem, ReadOutput};
use hu::read::around::{extract_lines_around, format_lines_around};

    #[test]
    fn outline_item_new() {
        let item = OutlineItem::new(10, "fn test()".to_string(), 0, ItemKind::Function);
        assert_eq!(item.line, 10);
        assert_eq!(item.text, "fn test()");
        assert_eq!(item.level, 0);
        assert_eq!(item.kind, ItemKind::Function);
    }

    #[test]
    fn outline_item_clone() {
        let item = OutlineItem::new(1, "test".to_string(), 0, ItemKind::Function);
        let cloned = item.clone();
        assert_eq!(item, cloned);
    }

    #[test]
    fn outline_item_debug() {
        let item = OutlineItem::new(1, "test".to_string(), 0, ItemKind::Function);
        let debug = format!("{:?}", item);
        assert!(debug.contains("OutlineItem"));
    }

    #[test]
    fn item_kind_icon_function() {
        assert_eq!(ItemKind::Function.icon(), "fn");
    }

    #[test]
    fn item_kind_icon_struct() {
        assert_eq!(ItemKind::Struct.icon(), "struct");
    }

    #[test]
    fn item_kind_icon_enum() {
        assert_eq!(ItemKind::Enum.icon(), "enum");
    }

    #[test]
    fn item_kind_icon_trait() {
        assert_eq!(ItemKind::Trait.icon(), "trait");
    }

    #[test]
    fn item_kind_icon_impl() {
        assert_eq!(ItemKind::Impl.icon(), "impl");
    }

    #[test]
    fn item_kind_icon_class() {
        assert_eq!(ItemKind::Class.icon(), "class");
    }

    #[test]
    fn item_kind_icon_module() {
        assert_eq!(ItemKind::Module.icon(), "mod");
    }

    #[test]
    fn item_kind_icon_const() {
        assert_eq!(ItemKind::Const.icon(), "const");
    }

    #[test]
    fn item_kind_icon_type() {
        assert_eq!(ItemKind::Type.icon(), "type");
    }

    #[test]
    fn item_kind_icon_other() {
        assert_eq!(ItemKind::Other.icon(), "");
    }

    #[test]
    fn item_kind_icon_heading() {
        assert_eq!(ItemKind::Heading(1).icon(), "#");
        assert_eq!(ItemKind::Heading(2).icon(), "##");
        assert_eq!(ItemKind::Heading(3).icon(), "###");
        assert_eq!(ItemKind::Heading(4).icon(), "####");
        assert_eq!(ItemKind::Heading(5).icon(), "####");
        assert_eq!(ItemKind::Heading(6).icon(), "####");
    }

    #[test]
    fn item_kind_clone() {
        let kind = ItemKind::Function;
        let cloned = kind.clone();
        assert_eq!(kind, cloned);
    }

    #[test]
    fn item_kind_debug() {
        let kind = ItemKind::Struct;
        let debug = format!("{:?}", kind);
        assert!(debug.contains("Struct"));
    }

    #[test]
    fn file_outline_new() {
        let outline = FileOutline::new();
        assert!(outline.is_empty());
        assert_eq!(outline.len(), 0);
    }

    #[test]
    fn file_outline_default() {
        let outline = FileOutline::default();
        assert!(outline.is_empty());
    }

    #[test]
    fn file_outline_push() {
        let mut outline = FileOutline::new();
        outline.push(OutlineItem::new(
            1,
            "test".to_string(),
            0,
            ItemKind::Function,
        ));
        assert_eq!(outline.len(), 1);
        assert!(!outline.is_empty());
    }

    #[test]
    fn file_outline_clone() {
        let mut outline = FileOutline::new();
        outline.push(OutlineItem::new(
            1,
            "test".to_string(),
            0,
            ItemKind::Function,
        ));
        let cloned = outline.clone();
        assert_eq!(outline.len(), cloned.len());
    }

    #[test]
    fn file_outline_debug() {
        let outline = FileOutline::new();
        let debug = format!("{:?}", outline);
        assert!(debug.contains("FileOutline"));
    }

    #[test]
    fn read_output_full() {
        let output = ReadOutput::Full("content".to_string());
        assert!(matches!(output, ReadOutput::Full(_)));
    }

    #[test]
    fn read_output_outline() {
        let output = ReadOutput::Outline(FileOutline::new());
        assert!(matches!(output, ReadOutput::Outline(_)));
    }

    #[test]
    fn read_output_interface() {
        let output = ReadOutput::Interface(vec![]);
        assert!(matches!(output, ReadOutput::Interface(_)));
    }

    #[test]
    fn read_output_around() {
        let output = ReadOutput::Around {
            lines: vec![(1, "line".to_string())],
            center: 1,
            total_lines: 10,
        };
        assert!(matches!(output, ReadOutput::Around { .. }));
    }

    #[test]
    fn read_output_diff() {
        let output = ReadOutput::Diff("diff output".to_string());
        assert!(matches!(output, ReadOutput::Diff(_)));
    }

    #[test]
    fn read_output_clone() {
        let output = ReadOutput::Full("test".to_string());
        let cloned = output.clone();
        if let (ReadOutput::Full(a), ReadOutput::Full(b)) = (output, cloned) {
            assert_eq!(a, b);
        } else {
            panic!("Expected Full");
        }
    }

    #[test]
    fn read_output_debug() {
        let output = ReadOutput::Diff("test".to_string());
        let debug = format!("{:?}", output);
        assert!(debug.contains("Diff"));
    }

    #[test]
    fn extract_basic() {
        let content = "line1\nline2\nline3\nline4\nline5";
        let (lines, total) = extract_lines_around(content, 3, 1);
        assert_eq!(total, 5);
        assert_eq!(lines.len(), 3);
        assert_eq!(lines[0], (2, "line2".to_string()));
        assert_eq!(lines[1], (3, "line3".to_string()));
        assert_eq!(lines[2], (4, "line4".to_string()));
    }

    #[test]
    fn extract_at_start() {
        let content = "line1\nline2\nline3\nline4\nline5";
        let (lines, _) = extract_lines_around(content, 1, 2);
        assert_eq!(lines.len(), 3);
        assert_eq!(lines[0], (1, "line1".to_string()));
    }

    #[test]
    fn extract_at_end() {
        let content = "line1\nline2\nline3\nline4\nline5";
        let (lines, _) = extract_lines_around(content, 5, 2);
        assert_eq!(lines.len(), 3);
        assert_eq!(lines[2], (5, "line5".to_string()));
    }

    #[test]
    fn extract_beyond_bounds() {
        let content = "line1\nline2\nline3";
        let (lines, _) = extract_lines_around(content, 2, 10);
        assert_eq!(lines.len(), 3);
    }

    #[test]
    fn extract_empty_content() {
        let (lines, total) = extract_lines_around("", 1, 5);
        assert!(lines.is_empty());
        assert_eq!(total, 0);
    }

    #[test]
    fn extract_zero_center() {
        let content = "line1\nline2";
        let (lines, _) = extract_lines_around(content, 0, 5);
        assert!(lines.is_empty());
    }

    #[test]
    fn extract_zero_context() {
        let content = "line1\nline2\nline3";
        let (lines, _) = extract_lines_around(content, 2, 0);
        assert_eq!(lines.len(), 1);
        assert_eq!(lines[0], (2, "line2".to_string()));
    }

    #[test]
    fn extract_single_line() {
        let content = "only line";
        let (lines, total) = extract_lines_around(content, 1, 5);
        assert_eq!(lines.len(), 1);
        assert_eq!(total, 1);
    }

    #[test]
    fn format_basic() {
        let lines = vec![
            (9, "line9".to_string()),
            (10, "line10".to_string()),
            (11, "line11".to_string()),
        ];
        let output = format_lines_around(&lines, 10, 11);
        assert!(output.contains(">10: line10"));
        assert!(output.contains(" 9: line9"));
        assert!(output.contains("11: line11"));
    }

    #[test]
    fn format_empty() {
        let lines: Vec<(usize, String)> = vec![];
        let output = format_lines_around(&lines, 1, 0);
        assert_eq!(output, "No content");
    }

    #[test]
    fn format_line_numbers_aligned() {
        let lines = vec![
            (1, "first".to_string()),
            (10, "tenth".to_string()),
            (100, "hundredth".to_string()),
        ];
        let output = format_lines_around(&lines, 10, 100);
        // All line numbers should be right-aligned with same width
        let output_lines: Vec<&str> = output.lines().collect();
        assert!(output_lines[0].starts_with("   1:"));
        assert!(output_lines[1].starts_with("> 10:"));
        assert!(output_lines[2].starts_with(" 100:"));
    }

    #[test]
    fn format_preserves_content() {
        let lines = vec![
            (1, "  indented content".to_string()),
            (2, "normal".to_string()),
        ];
        let output = format_lines_around(&lines, 1, 10);
        assert!(output.contains("  indented content"));
    }
