use codesnap::cli::text_or;
use codesnap::cli::text_or_else;
use codesnap::cli::OutputAction;
use codesnap::cli::OutputError;
use codesnap::cli::CLI;
use codesnap::code::create_code;
use codesnap::code::create_highlight_lines;
use codesnap::code_config::create_code_config;
use codesnap::code_config::map_breadcrumbs;
use codesnap::config::Border;
use codesnap::config::Breadcrumbs;
use codesnap::config::Code;
use codesnap::config::CodeConfig;
use codesnap::config::HighlightLine;
use codesnap::config::Margin;
use codesnap::config::Shadow;
use codesnap::config::TitleConfig;
use codesnap::config::Watermark;
use codesnap::config::Window;
use codesnap::highlight::HighlightLineRange;
use codesnap::range::Range;
use codesnap::range::RangeError;
use codesnap::watermark::create_watermark;
use codesnap::window::create_border;
use codesnap::window::create_title;
use codesnap::window::create_window;

fn cli() -> CLI {
    CLI {
        from_file: None,
        from_code: None,
        from_clipboard: false,
        output: "clipboard".to_string(),
        execute: vec![],
        skip: false,
        range: None,
        code_font_family: None,
        code_theme: None,
        has_breadcrumbs: Some(false),
        has_line_number: false,
        breadcrumbs_separator: None,
        breadcrumbs_font_family: None,
        breadcrumbs_color: None,
        start_line_number: None,
        line_number_color: "#495162".to_string(),
        delete_line: vec![],
        delete_line_color: "#ff6b6b30".to_string(),
        add_line: vec![],
        add_line_color: "#2ecc7130".to_string(),
        highlight_range: None,
        relative_highlight_range: false,
        highlight_range_color: "#ffffff10".to_string(),
        raw_highlight_lines: None,
        language: None,
        file_path: None,
        watermark: None,
        watermark_font_family: None,
        watermark_color: None,
        shadow_radius: None,
        shadow_color: None,
        mac_window_bar: None,
        has_border: true,
        border_color: "#ffffff30".to_string(),
        margin_x: None,
        margin_y: None,
        title: None,
        scale_factor: 3,
        title_font_family: None,
        title_color: None,
        background: None,
        snapshot_type: "image".to_string(),
        config: None,
    }
}

fn window() -> Window {
    Window {
        margin: Margin { x: 82, y: 82 },
        title_config: TitleConfig { font_family: "Font".to_string(), color: "#aca9b2".to_string() },
        border: Border { color: "#000000".to_string(), width: 5 },
        mac_window_bar: true,
        shadow: Shadow { radius: 20, color: "#0000004d".to_string() },
    }
}

fn code_config() -> Code {
    Code {
        content: String::new(),
        start_line_number: None,
        highlight_lines: vec![],
        language: Some("rust".to_string()),
        file_path: None,
    }
}

fn runs(lines: &[HighlightLine]) -> Vec<(u32, u32, String)> {
    lines
        .iter()
        .map(|line| match line {
            HighlightLine::Single(line, color) => (*line, *line, color.clone()),
            HighlightLine::Range(start, end, color) => (*start, *end, color.clone()),
        })
        .collect()
}

#[test]
fn output_is_the_clipboard_or_a_file() {
    let action = |output: &str, kind: &str| {
        let mut cli = cli();
        cli.output = output.to_string();
        cli.snapshot_type = kind.to_string();
        cli.output_snapshot()
    };
    assert_eq!(action("clipboard", "image"), Ok(OutputAction::CopyImage));
    assert_eq!(action("clipboard", "ascii"), Ok(OutputAction::CopyAscii));
    assert_eq!(action("clipboard", "video"), Err(OutputError::InvalidSnapshotType));
    assert_eq!(action("shot.png", "image"), Ok(OutputAction::SavePng));
    assert_eq!(action("shot.svg", "image"), Ok(OutputAction::SaveSvg));
    assert_eq!(action("shot.html", "image"), Ok(OutputAction::SaveHtml));
    assert_eq!(action("shot.jpg", "image"), Err(OutputError::UnsupportedFormat));
    assert_eq!(action("shot.png", "video"), Ok(OutputAction::SavePng));
    assert_eq!(action("shot.png", "ascii"), Ok(OutputAction::SkipAscii));
    let mut saved = cli();
    saved.output = "shot.png".to_string();
    assert_eq!(
        saved.output_message(OutputAction::SavePng),
        "Snapshot saved to shot.png successful!"
    );
    assert_eq!(saved.output_message(OutputAction::CopyImage), "Snapshot copied to clipboard");
    assert_eq!(
        saved.output_message(OutputAction::SkipAscii),
        "ASCII snapshot only supports copying to clipboard"
    );
}

#[test]
fn command_line_goes_before_the_configuration() {
    assert_eq!(text_or(&Some("a".to_string()), "b".to_string()), "a");
    assert_eq!(text_or(&None, "b".to_string()), "b");
    assert_eq!(text_or_else(&Some("a".to_string()), Some("b".to_string())), Some("a".to_string()));
    assert_eq!(text_or_else(&None, Some("b".to_string())), Some("b".to_string()));
    assert_eq!(text_or_else(&None, None), None);
}

#[test]
fn window_is_merged_from_command_line_and_configuration() {
    let merged = create_window(&cli(), window());
    assert_eq!(merged.margin, Margin { x: 82, y: 82 });
    assert_eq!((merged.shadow.radius, merged.shadow.color.as_str()), (20, "#0000004d"));
    assert!(merged.mac_window_bar);
    assert_eq!(merged.title_config.font_family, "Font");
    // The border comes from the command line alone.
    assert_eq!((merged.border.width, merged.border.color.as_str()), (1, "#ffffff30"));
    let mut asked = cli();
    asked.margin_x = Some(10);
    asked.shadow_radius = Some(0);
    asked.shadow_color = Some("#000000".to_string());
    asked.mac_window_bar = Some(false);
    asked.title_color = Some("#ffffff".to_string());
    asked.has_border = false;
    let merged = create_window(&asked, window());
    assert_eq!(merged.margin, Margin { x: 10, y: 82 });
    assert_eq!((merged.shadow.radius, merged.shadow.color.as_str()), (0, "#000000"));
    assert!(!merged.mac_window_bar);
    assert_eq!(merged.title_config.color, "#ffffff");
    assert_eq!(merged.border.width, 0);
    assert_eq!(create_border(&asked).width, 0);
    assert_eq!(create_title(&asked, window().title_config).font_family, "Font");
}

#[test]
fn watermark_is_there_when_a_text_is_given() {
    let configured = Watermark {
        content: "CodeSnap".to_string(),
        font_family: "Serif".to_string(),
        color: "#ff0000".to_string(),
    };
    assert!(create_watermark(&cli(), None).is_none());
    let kept = create_watermark(&cli(), Some(configured.clone())).unwrap();
    assert_eq!(
        (kept.content.as_str(), kept.font_family.as_str(), kept.color.as_str()),
        ("CodeSnap", "Serif", "#ff0000")
    );
    let mut asked = cli();
    asked.watermark = Some("Mine".to_string());
    let fresh = create_watermark(&asked, None).unwrap();
    assert_eq!(
        (fresh.content.as_str(), fresh.font_family.as_str(), fresh.color.as_str()),
        ("Mine", "Pacifico", "#ffffff")
    );
    asked.watermark_color = Some("#00ff00".to_string());
    let merged = create_watermark(&asked, Some(configured)).unwrap();
    assert_eq!(
        (merged.content.as_str(), merged.font_family.as_str(), merged.color.as_str()),
        ("Mine", "Serif", "#00ff00")
    );
}

#[test]
fn code_config_is_merged() {
    let configured = CodeConfig {
        font_family: "Configured".to_string(),
        breadcrumbs: Breadcrumbs {
            enable: true,
            separator: "/".to_string(),
            font_family: "Font".to_string(),
            color: "#80848b".to_string(),
        },
    };
    let mut asked = cli();
    asked.breadcrumbs_separator = Some(" > ".to_string());
    let merged = create_code_config(&asked, configured.clone());
    // The font of the code is the one asked for, else the default.
    assert_eq!(merged.font_family, "CaskaydiaCove Nerd Font");
    assert_eq!(merged.breadcrumbs.separator, " > ");
    assert_eq!(merged.breadcrumbs.color, "#80848b");
    assert!(!merged.breadcrumbs.enable);
    asked.has_breadcrumbs = None;
    asked.code_font_family = Some("Asked".to_string());
    let merged = create_code_config(&asked, configured.clone());
    assert_eq!(merged.font_family, "Asked");
    assert!(merged.breadcrumbs.enable);
    assert_eq!(map_breadcrumbs(&asked, configured.breadcrumbs).font_family, "Font");
}

#[test]
fn highlight_in_lines_of_the_whole_text() {
    let code = "1\n2\n3\n4\n5\n6\n7\n8\n9\n10";
    let highlight = HighlightLineRange::from(Range(3, 8), code, false).unwrap();
    assert_eq!(highlight.get_absolute_highlight_range(Range(4, 6)), Ok((2, 4)));
    assert_eq!(highlight.get_absolute_highlight_range(Range(3, 8)), Ok((1, 6)));
    assert_eq!(
        highlight.get_absolute_highlight_range(Range(2, 6)),
        Err(RangeError::HighlightStartTooSmall(3))
    );
    assert_eq!(
        highlight.get_absolute_highlight_range(Range(4, 9)),
        Err(RangeError::HighlightEndTooLarge(8))
    );
    assert_eq!(
        runs(&highlight.create_highlight_lines("4:6", "#ffffff10").unwrap()),
        vec![(2, 4, "#ffffff10".to_string())]
    );
    assert_eq!(
        runs(&highlight.create_highlight_lines("5", "#ffffff10").unwrap()),
        vec![(3, 3, "#ffffff10".to_string())]
    );
    assert_eq!(
        highlight.create_highlight_lines("1:2:3", "#ffffff10").err(),
        Some(RangeError::InvalidFormat)
    );
    assert_eq!(
        highlight.create_highlight_lines("a:2", "#ffffff10").err(),
        Some(RangeError::InvalidNumber)
    );
    assert_eq!(
        highlight.create_highlight_lines(":", "#ffffff10").err(),
        Some(RangeError::InvalidNumber)
    );
    // `end` is the last line of the whole text, which the snippet lacks.
    assert_eq!(
        highlight.create_highlight_lines("4:", "#ffffff10").err(),
        Some(RangeError::HighlightEndTooLarge(8))
    );
}

#[test]
fn highlight_in_lines_of_the_snippet() {
    let code = "1\n2\n3\n4\n5\n6\n7\n8\n9\n10";
    let highlight = HighlightLineRange::from(Range(3, 8), code, true).unwrap();
    assert_eq!(highlight.get_relative_highlight_range(Range(1, 6)), Ok((1, 6)));
    assert_eq!(
        highlight.get_relative_highlight_range(Range(1, 7)),
        Err(RangeError::HighlightEndTooLarge(5))
    );
    assert_eq!(
        runs(&highlight.create_highlight_lines("2:1", "#ffffff10").unwrap()),
        vec![(1, 2, "#ffffff10".to_string())]
    );
}

#[test]
fn highlights_of_several_ranges() {
    let code = "1\n2\n3\n4\n5";
    let highlight = HighlightLineRange::from(Range(1, 5), code, false).unwrap();
    let ranges = vec!["1".to_string(), "2:3".to_string(), "5:4".to_string()];
    assert_eq!(
        runs(&highlight.create_multiple_highlight_lines(&ranges, "#ff6b6b30").unwrap()),
        vec![
            (1, 1, "#ff6b6b30".to_string()),
            (2, 3, "#ff6b6b30".to_string()),
            (4, 5, "#ff6b6b30".to_string()),
        ]
    );
    assert!(highlight.create_multiple_highlight_lines(&vec![], "#ff6b6b30").unwrap().is_empty());
    let bad = vec!["1".to_string(), "9".to_string(), "x".to_string()];
    assert_eq!(
        highlight.create_multiple_highlight_lines(&bad, "#ff6b6b30").err(),
        Some(RangeError::HighlightEndTooLarge(5))
    );
}

#[test]
fn highlights_of_the_command_line() {
    let code = "1\n2\n3\n4\n5";
    let mut asked = cli();
    asked.highlight_range = Some("2:3".to_string());
    asked.delete_line = vec!["1".to_string()];
    asked.add_line = vec!["4".to_string(), "5".to_string()];
    assert_eq!(
        runs(&create_highlight_lines(&asked, None, Range(1, 5), code).unwrap()),
        vec![
            (2, 3, "#ffffff10".to_string()),
            (1, 1, "#ff6b6b30".to_string()),
            (4, 4, "#2ecc7130".to_string()),
            (5, 5, "#2ecc7130".to_string()),
        ]
    );
    let raw = vec![HighlightLine::Single(1, "#ff0000".to_string())];
    assert_eq!(
        runs(&create_highlight_lines(&asked, Some(raw), Range(1, 5), code).unwrap()),
        vec![(1, 1, "#ff0000".to_string())]
    );
    assert!(create_highlight_lines(&cli(), None, Range(1, 5), code).unwrap().is_empty());
    asked.add_line = vec!["6".to_string()];
    assert_eq!(
        create_highlight_lines(&asked, None, Range(1, 5), code).err(),
        Some(RangeError::HighlightEndTooLarge(5))
    );
}

#[test]
fn code_is_cut_and_numbered() {
    let snippet = "a\nb\nc\nd\ne\n";
    let mut asked = cli();
    asked.range = Some("2:4".to_string());
    asked.highlight_range = Some("3".to_string());
    asked.from_file = Some("src/main.rs".to_string());
    let code = create_code(&asked, code_config(), snippet, None).unwrap();
    assert_eq!(code.content, "b\nc\nd");
    assert_eq!(code.start_line_number, Some(2));
    assert_eq!(code.file_path, Some("src/main.rs".to_string()));
    assert_eq!(code.language, Some("rust".to_string()));
    assert_eq!(runs(&code.highlight_lines), vec![(2, 2, "#ffffff10".to_string())]);
    let whole = create_code(&cli(), code_config(), snippet, None).unwrap();
    assert_eq!(whole.content, "a\nb\nc\nd\ne");
    assert_eq!(whole.start_line_number, Some(1));
    assert_eq!(whole.file_path, None);
    asked.range = Some("0:2".to_string());
    assert_eq!(
        create_code(&asked, code_config(), snippet, None).err(),
        Some(RangeError::LineOutOfRange)
    );
    asked.range = Some("1:2:3".to_string());
    assert_eq!(
        create_code(&asked, code_config(), snippet, None).err(),
        Some(RangeError::InvalidFormat)
    );
    asked.range = Some("one".to_string());
    assert_eq!(
        create_code(&asked, code_config(), snippet, None).err(),
        Some(RangeError::InvalidNumber)
    );
    asked.range = Some("4:5".to_string());
    assert_eq!(
        create_code(&asked, code_config(), snippet, None).err(),
        Some(RangeError::HighlightStartTooSmall(4))
    );
    assert_eq!(
        create_code(&cli(), code_config(), "", None).err(),
        Some(RangeError::LineOutOfRange)
    );
}
