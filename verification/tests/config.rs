use codesnap::assets::Assets;
use codesnap::assets::AssetsError;
use codesnap::components::command_line::command_line_header::CommandLineHeader;
use codesnap::config::default_scale_factor;
use codesnap::config::Background;
use codesnap::config::Code;
use codesnap::config::CodeConfig;
use codesnap::config::CodeSnap;
use codesnap::config::CodeSnapError;
use codesnap::config::CommandLineContent;
use codesnap::config::CommandOutputConfig;
use codesnap::config::Content;
use codesnap::config::DimensionValue;
use codesnap::config::Margin;
use codesnap::config::Watermark;
use codesnap::config::WatermarkBuilder;
use codesnap::config::ThemeConfigError;
use codesnap::config::WatermarkError;
use codesnap::config::Window;
use codesnap::config::WindowBuilder;
use codesnap::preset_background::bamboo;
use codesnap::preset_background::classic;
use codesnap::preset_background::dusk;
use codesnap::preset_background::grape;
use codesnap::preset_background::peach;
use codesnap::preset_background::sea;
use codesnap::preset_background::summer;
use codesnap::snapshot::ascii_snapshot::optional;
use codesnap::snapshot::ascii_snapshot::ASCIISnapshot;
use codesnap::snapshot::snapshot_data::SnapshotData;
use codesnap::snapshot::snapshot_data::SnapshotError;
use codesnap::themes::ThemeFile;
use codesnap::utils::code::calc_max_line_number_length;
use codesnap::utils::code::calc_wh;
use codesnap::utils::code::calc_wh_with_min_width;
use codesnap::utils::code::code_size;
use codesnap::utils::code::prepare_code;
use codesnap::utils::text::chars_of;
use codesnap::utils::text::word_bounds;

fn stops(background: &Background) -> Vec<(u16, String)> {
    match background {
        Background::Gradient(gradient) => {
            assert_eq!(gradient.start.x, DimensionValue::Num(0));
            assert_eq!(gradient.start.y, DimensionValue::Num(0));
            assert_eq!(gradient.end.x, DimensionValue::Max);
            assert_eq!(gradient.end.y, DimensionValue::Num(0));
            gradient.stops.iter().map(|stop| (stop.position, stop.color.clone())).collect()
        }
        Background::Solid(_) => panic!("not a gradient"),
    }
}

fn words_of(text: &str) -> Vec<String> {
    let chars = chars_of(text);
    word_bounds(&chars)
        .iter()
        .map(|bounds| chars[bounds.start..bounds.end].iter().collect())
        .collect()
}

fn snapshot(code: Code, has_breadcrumbs: bool) -> ASCIISnapshot {
    ASCIISnapshot { code, has_breadcrumbs }
}

#[test]
fn preset_backgrounds_are_horizontal_gradients() {
    assert_eq!(
        stops(&bamboo()),
        vec![(220, "#6bcba5".to_string()), (950, "#caf4c2".to_string())]
    );
    assert_eq!(
        stops(&sea()),
        vec![
            (0, "#1fa2ff".to_string()),
            (400, "#12d8fa".to_string()),
            (950, "#a6ffcb".to_string()),
        ]
    );
    assert_eq!(stops(&classic())[1], (500, "#d76d77".to_string()));
    assert_eq!(stops(&grape())[0], (280, "#675af7".to_string()));
    assert_eq!(stops(&peach())[1], (950, "#f7bb97".to_string()));
    assert_eq!(stops(&summer())[0], (280, "#f8a5c2".to_string()));
    assert_eq!(stops(&dusk())[0], (220, "#ff626e".to_string()));
    for background in [bamboo(), sea(), classic(), grape(), peach(), summer(), dusk()] {
        assert!(background.check_valid());
    }
}

#[test]
fn configuration_is_built_with_defaults() {
    let config = CodeSnap::default()
        .code(Code::new("fn main() {}".to_string()))
        .background(bamboo())
        .build()
        .unwrap();
    assert_eq!(config.scale_factor, 3);
    assert_eq!(default_scale_factor(), 3);
    assert_eq!(config.theme, "candy");
    assert_eq!(config.line_number_color, "#495162");
    assert!(config.watermark.is_none());
    assert!(config.title.is_none());
    assert!(config.themes_folders.is_empty());
    assert!(config.fonts_folders.is_empty());
    assert_eq!(config.window.margin, Margin { x: 82, y: 82 });
    assert_eq!(config.window.title_config.font_family, "CaskaydiaCove Nerd Font");
    assert_eq!(config.window.title_config.color, "#aca9b2");
    assert_eq!((config.window.border.width, config.window.border.color.as_str()), (1, "#ffffff30"));
    assert!(config.window.mac_window_bar);
    assert_eq!((config.window.shadow.radius, config.window.shadow.color.as_str()), (20, "#0000004d"));
    assert_eq!(config.command_output_config.prompt, "❯");
    assert_eq!(config.command_output_config.prompt_color, "#F78FB3");
    assert_eq!(config.command_output_config.command_color, "#98C379");
    assert_eq!(config.command_output_config.string_arg_color, "#ff0000");
    assert_eq!(config.code_config.font_family, "CaskaydiaCove Nerd Font");
    assert!(!config.code_config.breadcrumbs.enable);
    assert_eq!(config.code_config.breadcrumbs.separator, "/");
    assert_eq!(config.code_config.breadcrumbs.color, "#80848b");
    match config.content {
        Content::Code(code) => assert_eq!(code.content, "fn main() {}"),
        Content::CommandOutput(_) => panic!("not code"),
    }
}

#[test]
fn configuration_keeps_what_was_said() {
    let config = CodeSnap::default()
        .content(Content::CommandOutput(vec![CommandLineContent {
            content: "out".to_string(),
            full_command: "ls".to_string(),
        }]))
        .background(Background::Solid("#000000".to_string()))
        .scale_factor(1)
        .theme("base16-ocean.dark".to_string())
        .title(Some("main.rs".to_string()))
        .watermark(Some(Watermark::new("CodeSnap".to_string())))
        .line_number_color("#ffffff".to_string())
        .themes_folders(vec!["themes".to_string()])
        .fonts_folders(vec!["fonts".to_string()])
        .window(WindowBuilder::from_window(Window::default()).build())
        .code_config(CodeConfig::default())
        .command_output_config(CommandOutputConfig::default())
        .build()
        .unwrap();
    assert_eq!(config.scale_factor, 1);
    assert_eq!(config.theme, "base16-ocean.dark");
    assert_eq!(config.title, Some("main.rs".to_string()));
    assert_eq!(config.line_number_color, "#ffffff");
    assert_eq!(config.themes_folders, vec!["themes"]);
    assert_eq!(config.fonts_folders, vec!["fonts"]);
    let watermark = config.watermark.unwrap();
    assert_eq!(
        (watermark.content.as_str(), watermark.font_family.as_str(), watermark.color.as_str()),
        ("CodeSnap", "Pacifico", "#ffffff")
    );
    assert!(matches!(config.content, Content::CommandOutput(entries) if entries.len() == 1));
}

#[test]
fn configuration_needs_content_background_and_a_scale() {
    assert_eq!(CodeSnap::default().build().err(), Some(CodeSnapError::MissingContent));
    assert_eq!(
        CodeSnap::default().code(Code::new(String::new())).build().err(),
        Some(CodeSnapError::MissingBackground)
    );
    assert_eq!(
        CodeSnap::default().scale_factor(0).build().err(),
        Some(CodeSnapError::InvalidScaleFactor)
    );
    assert_eq!(
        CodeSnap::default().scale_factor(0).validate(),
        Err(CodeSnapError::InvalidScaleFactor)
    );
    assert_eq!(CodeSnap::default().validate(), Ok(()));
    assert_eq!(CodeSnap::default().scale_factor(1).validate(), Ok(()));
    assert_eq!(
        CodeSnapError::InvalidScaleFactor.message(),
        "The scale factor must be greater than 1"
    );
    assert_eq!(CodeSnapError::MissingContent.message(), "`content` must be initialized");
    assert_eq!(CodeSnapError::MissingBackground.message(), "`background` must be initialized");
}

#[test]
fn parts_of_a_configuration_are_mapped() {
    let builder = CodeSnap::default()
        .map_window(|mut window: Window| -> Result<Window, String> {
            assert!(window.mac_window_bar);
            window.margin.x = 1;
            Ok(window)
        })
        .unwrap()
        .map_code_config(|mut config: CodeConfig| -> Result<CodeConfig, String> {
            config.font_family = "Mono".to_string();
            Ok(config)
        })
        .unwrap()
        .map_code(|mut code: Code| -> Result<Content, String> {
            assert_eq!(code.content, "");
            code.content = "mapped".to_string();
            Ok(Content::Code(code))
        })
        .unwrap()
        .map_watermark(|watermark: Option<Watermark>| -> Result<Option<Watermark>, String> {
            assert!(watermark.is_none());
            Ok(Some(Watermark::new("W".to_string())))
        })
        .unwrap();
    assert_eq!(builder.window.as_ref().unwrap().margin, Margin { x: 1, y: 82 });
    assert_eq!(builder.code_config.as_ref().unwrap().font_family, "Mono");
    assert!(matches!(&builder.content, Some(Content::Code(code)) if code.content == "mapped"));
    assert_eq!(builder.watermark.as_ref().unwrap().as_ref().unwrap().content, "W");
    let failed = builder.map_window(|_window: Window| -> Result<Window, String> {
        Err("no".to_string())
    });
    assert_eq!(failed.err(), Some("no".to_string()));
    let commands = CodeSnap::default()
        .content(Content::CommandOutput(vec![]))
        .map_code(|_code: Code| -> Result<Content, String> { Err("not called".to_string()) })
        .unwrap();
    assert!(matches!(commands.content, Some(Content::CommandOutput(_))));
}

#[test]
fn watermark_is_built_from_its_parts() {
    assert_eq!(WatermarkBuilder::default().build().err(), Some(WatermarkError::MissingContent));
    let built = WatermarkBuilder::default()
        .content("W".to_string())
        .color("#000000".to_string())
        .build()
        .unwrap();
    assert_eq!(
        (built.content.as_str(), built.font_family.as_str(), built.color.as_str()),
        ("W", "Pacifico", "#000000")
    );
    let copied = WatermarkBuilder::from_watermark(Some(built))
        .font_family("Serif".to_string())
        .build()
        .unwrap();
    assert_eq!(
        (copied.content.as_str(), copied.font_family.as_str(), copied.color.as_str()),
        ("W", "Serif", "#000000")
    );
    assert!(WatermarkBuilder::from_watermark(None).content.is_none());
}

#[test]
fn words_are_runs_without_white_space() {
    assert_eq!(words_of("ls -l  /tmp"), vec!["ls", "-l", "/tmp"]);
    assert_eq!(words_of("  ls\t-l\n"), vec!["ls", "-l"]);
    assert_eq!(words_of(""), Vec::<String>::new());
    assert_eq!(words_of(" \u{a0}\u{2003} "), Vec::<String>::new());
    assert_eq!(words_of("één twee"), vec!["één", "twee"]);
    for text in ["ls -l  /tmp", "  a  ", "", "a", " \t\n", "a\u{3000}b"] {
        let expected: Vec<String> = text.split_whitespace().map(String::from).collect();
        assert_eq!(words_of(text), expected);
    }
}

#[test]
fn header_is_prompt_command_and_arguments() {
    let spans = CommandLineHeader::spans("❯", "cargo  build --release ").unwrap();
    assert_eq!(spans.prompt, "❯ ");
    assert_eq!(spans.command, "cargo ");
    assert_eq!(spans.args, "build --release");
    let bare = CommandLineHeader::spans("$", "ls").unwrap();
    assert_eq!((bare.command.as_str(), bare.args.as_str()), ("ls ", ""));
    assert!(CommandLineHeader::spans("$", "  ").is_none());
    assert!(CommandLineHeader::spans("$", "").is_none());
}

#[test]
fn extension_comes_from_the_address_or_the_content_type() {
    assert_eq!(Assets::extension_of("candy.tmTheme"), Some("tmTheme".to_string()));
    assert_eq!(Assets::extension_of("a.b.json"), Some("json".to_string()));
    assert_eq!(Assets::extension_of("candy"), None);
    assert_eq!(Assets::extension_of(".hidden"), None);
    assert_eq!(Assets::extension_of(".hidden.json"), Some("json".to_string()));
    assert_eq!(Assets::extension_of("candy."), Some(String::new()));
    assert_eq!(Assets::extension_of(""), None);
    assert_eq!(Assets::extension_of("."), None);
    assert_eq!(Assets::extension_of(".."), None);
    assert_eq!(Assets::extension_of("..."), Some(String::new()));
    for name in ["candy.tmTheme", "a.b.json", "candy", ".hidden", "candy.", "", ".", "..", "...", "..a"] {
        let expected = std::path::Path::new(name)
            .extension()
            .and_then(|extension| extension.to_str())
            .map(String::from);
        assert_eq!(Assets::extension_of(name), expected);
    }
    assert_eq!(
        Assets::extension("https://example.com/themes/candy.tmTheme?raw=1", "text/plain"),
        Ok("tmTheme".to_string())
    );
    assert_eq!(
        Assets::extension("https://example.com/themes/candy", "application/json"),
        Ok("json".to_string())
    );
    assert_eq!(
        Assets::extension("https://example.com", "application/json; charset=utf-8"),
        Ok("json".to_string())
    );
    assert_eq!(
        Assets::extension("not an address", "application/json"),
        Err(AssetsError::InvalidUrl)
    );
    assert_eq!(
        Assets::extension("https://example.com/candy", "no content type"),
        Err(AssetsError::UnknownContentType)
    );
    assert_eq!(
        Assets::extension("https://example.com/candy", "x-unknown/x-nothing"),
        Err(AssetsError::UnknownContentType)
    );
    assert_eq!(
        Assets::choose_extension(Some("a".to_string()), Some("b".to_string())),
        Ok("a".to_string())
    );
    assert_eq!(Assets::choose_extension(None, Some("b".to_string())), Ok("b".to_string()));
    assert_eq!(Assets::choose_extension(None, None), Err(AssetsError::UnknownContentType));
}

#[test]
fn snapshot_as_text_is_framed() {
    let code = Code::new("fn main() {\n    run();\n}".to_string());
    let text = snapshot(code, false).generate_snapshot().unwrap();
    assert_eq!(
        text,
        "╭─────────────╮\n\
         │ fn main() { │\n\
         │     run();  │\n\
         │ }           │\n\
         ╰─────────────╯"
    );
}

#[test]
fn snapshot_as_text_with_path_and_numbers() {
    let mut code = Code::new("a\nbb".to_string());
    code.file_path = Some("src/longer_than_code.rs".to_string());
    code.start_line_number = Some(9);
    let text = snapshot(code, true).generate_snapshot().unwrap();
    // Inside the frame: the path (23) and room (2), the numbers (2) and
    // room (2).
    let rule = "─".repeat(31);
    let expected = format!(
        "╭{rule}╮\n│ {:29} │\n│{rule}│\n│ {:29} │\n│ {:29} │\n╰{rule}╯",
        "src/longer_than_code.rs", " 9 a", "10 bb"
    );
    assert_eq!(text, expected);
}

#[test]
fn snapshot_as_text_needs_code() {
    assert_eq!(optional("shown".to_string(), true), "shown");
    assert_eq!(optional("shown".to_string(), false), "");
    let config = CodeSnap::default()
        .code(Code::new("a".to_string()))
        .background(bamboo())
        .build()
        .unwrap();
    let snapshot = ASCIISnapshot::from_config(config).unwrap();
    assert!(!snapshot.has_breadcrumbs);
    assert!(matches!(
        snapshot.raw_data().unwrap(),
        SnapshotData::Text(text) if text == "╭────╮\n│ a  │\n╰────╯"
    ));
    assert_eq!(
        snapshot.frame_code("a", usize::MAX, 0).err(),
        Some(SnapshotError::TooLarge)
    );
    let commands = CodeSnap::default()
        .content(Content::CommandOutput(vec![]))
        .background(bamboo())
        .build()
        .unwrap();
    assert_eq!(ASCIISnapshot::from_config(commands).err(), Some(SnapshotError::NotCode));
}

#[test]
fn configuration_is_read_from_a_theme() {
    let themes = vec![
        ThemeFile { name: "bamboo.json".to_string(), content: "2".to_string() },
        ThemeFile { name: "sea.json".to_string(), content: "seven".to_string() },
    ];
    let read = |config: String| -> Result<CodeSnap, String> {
        config
            .parse::<u8>()
            .map(|scale_factor| CodeSnap::default().scale_factor(scale_factor))
            .map_err(|error| error.to_string())
    };
    let builder = CodeSnap::from_theme("bamboo", &themes, read).unwrap();
    assert_eq!(builder.scale_factor, Some(2));
    let builder = CodeSnap::from_default_theme(&themes, read).unwrap();
    assert_eq!(builder.scale_factor, Some(2));
    assert!(matches!(
        CodeSnap::from_theme("sea", &themes, read),
        Err(ThemeConfigError::Invalid(message)) if message == "invalid digit found in string"
    ));
    assert!(matches!(
        CodeSnap::from_theme("dusk", &themes, read),
        Err(ThemeConfigError::UnknownTheme)
    ));
    assert!(matches!(
        CodeSnap::from_default_theme(&vec![], read),
        Err(ThemeConfigError::UnknownTheme)
    ));
}

#[test]
fn code_is_measured_on_a_grid() {
    assert_eq!(prepare_code("\tfn main() {\n\t\trun();\n}"), "  fn main() {\n    run();\n}");
    assert_eq!(prepare_code(""), "");
    assert_eq!(prepare_code("no tabs"), "no tabs");
    assert_eq!(prepare_code("\t"), "  ");
    assert_eq!(code_size("a\nbbb\ncc"), (3, 3));
    assert_eq!(code_size(""), (0, 0));
    assert_eq!(code_size("é"), (2, 1));
    assert_eq!(calc_wh("a\n\tb", 8, 15), Some((24, 30)));
    assert_eq!(calc_wh("abc", u32::MAX, 1), None);
    assert_eq!(calc_wh_with_min_width("src/main.rs", 8, 15), Some((100, 15)));
    assert_eq!(calc_wh_with_min_width("src/a/very/long/path.rs", 8, 15), Some((184, 15)));
    assert_eq!(calc_max_line_number_length(2, 9), 2);
    assert_eq!(calc_max_line_number_length(1, 9), 1);
    assert_eq!(calc_max_line_number_length(0, 0), 1);
    assert_eq!(calc_max_line_number_length(100, 1), 3);
}

#[test]
fn snapshot_as_text_shows_tabs_as_spaces() {
    let mut code = Code::new("a\n\tb".to_string());
    code.start_line_number = Some(99);
    let text = snapshot(code, false).generate_snapshot().unwrap();
    // The frame is as wide inside as the longest line (3), and no less than
    // the room on both sides (2), and wider by the numbers (3) and room (2).
    assert_eq!(
        text,
        "╭──────────╮\n\
         │  99 a    │\n\
         │ 100   b  │\n\
         ╰──────────╯"
    );
}
