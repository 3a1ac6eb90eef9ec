use codesnap::range::Range;
use codesnap::range::RangeError;
use codesnap::save::save_snapshot;
use codesnap::save::SaveError;
use codesnap::themes::get_theme;
use codesnap::themes::ThemeFile;
use codesnap::utils::color::is_valid_hex_color;
use codesnap::utils::color::parse_color_to_rgba_hex;
use codesnap::utils::color::RgbaColor;
use codesnap::utils::highlight::Highlight;
use codesnap::utils::highlight::SpanStyle;
use codesnap::utils::number::count_digits;
use codesnap::utils::number::to_decimal_string;
use codesnap::utils::number::to_padded_decimal_string;
use codesnap::utils::path::create_temp_file_name;
use codesnap::utils::path::join_path;
use codesnap::utils::path::parse_file_name;
use codesnap::utils::path::parse_home_variable;
use codesnap::utils::path::parse_separator;
use codesnap::utils::text::chars_are;
use codesnap::utils::text::chars_of;
use codesnap::utils::text::ends_with;
use codesnap::utils::text::find_from;
use codesnap::utils::text::join_pieces;
use codesnap::utils::text::line_bounds;
use codesnap::utils::text::parse_usize;

fn lines_of(text: &str) -> Vec<String> {
    let chars = chars_of(text);
    line_bounds(&chars)
        .iter()
        .map(|bounds| chars[bounds.start..bounds.end].iter().collect())
        .collect()
}

fn parse(text: &str) -> Option<usize> {
    parse_usize(&chars_of(text))
}

fn range(text: &str) -> Result<(String, String), RangeError> {
    Range::from_str(text).map(|Range(start, end)| (start, end))
}

fn pair(start: &str, end: &str) -> Result<(String, String), RangeError> {
    Ok((start.to_string(), end.to_string()))
}

fn parsed(text: &str, code: &str) -> Result<(usize, usize), RangeError> {
    Range::from_str(text).unwrap().parse_range(code).map(|Range(start, end)| (start, end))
}

#[test]
fn hex_colors_have_seven_or_nine_bytes() {
    assert!(is_valid_hex_color("#ffffff"));
    assert!(is_valid_hex_color("#ffffff30"));
    assert!(is_valid_hex_color("#zzzzzz"));
    assert!(!is_valid_hex_color("ffffff0"));
    assert!(!is_valid_hex_color("#fff"));
    assert!(!is_valid_hex_color(""));
    assert!(!is_valid_hex_color("#ffffff3"));
}

#[test]
fn hex_colors_without_alpha_are_opaque() {
    assert_eq!(parse_color_to_rgba_hex("#aca9b2"), "#aca9b2ff");
    assert_eq!(parse_color_to_rgba_hex("#ffffff30"), "#ffffff30");
    assert_eq!(parse_color_to_rgba_hex("blue"), "blue");
}

#[test]
fn hex_colors_are_read_channel_by_channel() {
    assert_eq!(
        RgbaColor::from_hex("#495162"),
        Some(RgbaColor { red: 0x49, green: 0x51, blue: 0x62, alpha: 255 })
    );
    assert_eq!(
        RgbaColor::from_hex("#FFfF0030"),
        Some(RgbaColor { red: 255, green: 255, blue: 0, alpha: 0x30 })
    );
    assert_eq!(RgbaColor::from_hex("#0000004d").unwrap().alpha, 0x4d);
    assert_eq!(RgbaColor::from_hex("#zzzzzz"), None);
    assert_eq!(RgbaColor::from_hex("495162f"), None);
    assert_eq!(RgbaColor::from_hex("#49516"), None);
    assert_eq!(RgbaColor::from_hex("#é1234"), None);
    assert_eq!(RgbaColor::from_hex(""), None);
}

#[test]
fn hex_channel_may_be_a_sign_and_a_digit() {
    assert_eq!(
        RgbaColor::from_hex("#+7-1-0"),
        Some(RgbaColor { red: 7, green: 255, blue: 0, alpha: 255 })
    );
    assert_eq!(RgbaColor::from_hex("#+7-1-f").unwrap().blue, 241);
    assert_eq!(RgbaColor::from_hex("#7+0000"), None);
    assert_eq!(RgbaColor::from_hex("#+-0000"), None);
}

#[test]
fn numbers_are_written_in_decimal() {
    assert_eq!(to_decimal_string(0), "0");
    assert_eq!(to_decimal_string(7), "7");
    assert_eq!(to_decimal_string(10), "10");
    assert_eq!(to_decimal_string(4294967295), "4294967295");
    assert_eq!(count_digits(0), 1);
    assert_eq!(count_digits(9), 1);
    assert_eq!(count_digits(10), 2);
    assert_eq!(count_digits(4294967295), 10);
    assert_eq!(count_digits(u128::MAX), 39);
    assert_eq!(to_decimal_string(u128::MAX), u128::MAX.to_string());
    assert_eq!(to_padded_decimal_string(7, 3), "  7");
    assert_eq!(to_padded_decimal_string(123, 3), "123");
    assert_eq!(to_padded_decimal_string(1234, 3), "1234");
    assert_eq!(to_padded_decimal_string(5, 0), "5");
}

#[test]
fn characters_are_found_from_a_place_on() {
    let chars = chars_of("a:b:c");
    assert_eq!(chars, vec!['a', ':', 'b', ':', 'c']);
    assert_eq!(find_from(&chars, 0, ':'), 1);
    assert_eq!(find_from(&chars, 2, ':'), 3);
    assert_eq!(find_from(&chars, 4, ':'), 5);
    assert_eq!(find_from(&chars, 5, ':'), 5);
    assert!(chars_are(&chars, "a:b:c"));
    assert!(!chars_are(&chars, "a:b:d"));
    assert!(!chars_are(&chars, "a:b"));
    assert!(ends_with("shot.png", ".png"));
    assert!(ends_with(".png", ".png"));
    assert!(!ends_with("png", ".png"));
    assert!(!ends_with("shot.png.bak", ".png"));
    assert!(ends_with("shot", ""));
}

#[test]
fn lines_end_with_line_feeds() {
    assert_eq!(lines_of(""), Vec::<String>::new());
    assert_eq!(lines_of("a"), vec!["a"]);
    assert_eq!(lines_of("a\n"), vec!["a"]);
    assert_eq!(lines_of("a\nb"), vec!["a", "b"]);
    assert_eq!(lines_of("a\r\nb\r\n"), vec!["a", "b"]);
    assert_eq!(lines_of("a\n\nb"), vec!["a", "", "b"]);
    assert_eq!(lines_of("\n"), vec![""]);
    assert_eq!(lines_of("a\rb\r"), vec!["a\rb\r"]);
    assert_eq!(lines_of("é\nü"), vec!["é", "ü"]);
    for text in ["", "a", "a\n", "a\nb", "a\r\nb\r\n", "a\n\nb", "\n", "a\rb\r", "\r\n", "a\n\r"] {
        let expected: Vec<String> = text.lines().map(|line| line.to_string()).collect();
        assert_eq!(lines_of(text), expected);
    }
}

#[test]
fn lines_are_joined_with_line_feeds() {
    let text = "one\ntwo\r\nthree\nfour";
    let bounds = line_bounds(&chars_of(text));
    assert_eq!(join_pieces(text, &bounds, 0, 4, "\n"), "one\ntwo\nthree\nfour");
    assert_eq!(join_pieces(text, &bounds, 1, 3, "\n"), "two\nthree");
    assert_eq!(join_pieces(text, &bounds, 2, 2, "\n"), "");
    assert_eq!(join_pieces(text, &bounds, 3, 4, "\n"), "four");
}

#[test]
fn unsigned_numbers_are_read() {
    assert_eq!(parse("0"), Some(0));
    assert_eq!(parse("42"), Some(42));
    assert_eq!(parse("+42"), Some(42));
    assert_eq!(parse("007"), Some(7));
    assert_eq!(parse(""), None);
    assert_eq!(parse("+"), None);
    assert_eq!(parse("-1"), None);
    assert_eq!(parse("4 2"), None);
    assert_eq!(parse("4x"), None);
    assert_eq!(parse(&usize::MAX.to_string()), Some(usize::MAX));
    assert_eq!(parse(&format!("{}0", usize::MAX)), None);
    assert_eq!(parse("18446744073709551616"), "18446744073709551616".parse::<usize>().ok());
    for text in ["0", "+5", "", "+", "-1", "12a", "99999999999999999999999"] {
        assert_eq!(parse(text), text.parse::<usize>().ok());
    }
}

#[test]
fn range_has_one_or_two_ends() {
    assert_eq!(range("3:5"), pair("3", "5"));
    assert_eq!(range("3"), pair("3", "3"));
    assert_eq!(range("3:"), pair("3", "end"));
    assert_eq!(range(":5"), pair("start", "5"));
    assert_eq!(range("start:end"), pair("start", "end"));
    assert_eq!(range(":"), pair("start", ""));
    assert_eq!(range(""), pair("", ""));
    assert_eq!(range("3:5:7"), Err(RangeError::InvalidFormat));
    assert_eq!(range("::"), Err(RangeError::InvalidFormat));
    assert_eq!(range("3:5:"), Err(RangeError::InvalidFormat));
}

#[test]
fn range_without_text_is_the_whole_text() {
    let Range(start, end) = Range::from_opt_string(None).unwrap();
    assert_eq!((start.as_str(), end.as_str()), ("start", "end"));
    let Range(start, end) = Range::from_opt_string(Some("2:4".to_string())).unwrap();
    assert_eq!((start.as_str(), end.as_str()), ("2", "4"));
    assert_eq!(
        Range::from_opt_string(Some("1:2:3".to_string())).err(),
        Some(RangeError::InvalidFormat)
    );
}

#[test]
fn range_names_lines_of_a_text() {
    let code = "a\nb\nc\nd\n";
    assert_eq!(parsed("start:end", code), Ok((1, 4)));
    assert_eq!(parsed("2:3", code), Ok((2, 3)));
    assert_eq!(parsed("3:2", code), Ok((2, 3)));
    assert_eq!(parsed("3:", code), Ok((3, 4)));
    assert_eq!(parsed(":2", code), Ok((1, 2)));
    assert_eq!(parsed("9", code), Ok((9, 9)));
    assert_eq!(parsed("end:start", code), Ok((1, 4)));
    assert_eq!(parsed("start:end", ""), Ok((0, 1)));
    assert_eq!(parsed("x:2", code), Err(RangeError::InvalidNumber));
    assert_eq!(parsed("2:y", code), Err(RangeError::InvalidNumber));
    assert_eq!(parsed(":", code), Err(RangeError::InvalidNumber));
    assert_eq!(parsed("-1:2", code), Err(RangeError::InvalidNumber));
}

#[test]
fn range_cuts_lines_out_of_a_text() {
    let code = "a\nb\r\nc\nd\n";
    assert_eq!(Range(2, 3).cut_code_snippet(code).unwrap(), "b\nc");
    assert_eq!(Range(1, 4).cut_code_snippet(code).unwrap(), "a\nb\nc\nd");
    assert_eq!(Range(1, 1).cut_code_snippet(code).unwrap(), "a");
    assert_eq!(Range(3, 10).cut_code_snippet(code).unwrap(), "c\nd");
    assert_eq!(Range(5, 10).cut_code_snippet(code).unwrap(), "");
    assert_eq!(Range(3, 2).cut_code_snippet(code).unwrap(), "");
    assert_eq!(Range(1, 1).cut_code_snippet("").unwrap(), "");
}

#[test]
fn home_directory_is_filled_in() {
    assert_eq!(parse_home_variable("~/shots", Some("/home/me")).unwrap(), "/home/me/shots");
    assert_eq!(parse_home_variable("/tmp/shots", Some("/home/me")).unwrap(), "/tmp/shots");
    assert_eq!(parse_home_variable("~/a/~", Some("/h")).unwrap(), "/h/a//h");
    assert_eq!(parse_home_variable("~/shots", None).unwrap(), "~/shots");
}

#[test]
fn separators_of_a_path_are_replaced() {
    assert_eq!(parse_separator("src/utils/path.rs", " > ").unwrap(), "src > utils > path.rs");
    assert_eq!(parse_separator("path.rs", " > ").unwrap(), "path.rs");
    assert_eq!(parse_separator("/a/", "").unwrap(), "a");
}

#[test]
fn snapshot_in_a_directory_is_named_after_the_time() {
    assert_eq!(create_temp_file_name("2024-01-02_at_03:04:05"), "CodeSnap_2024-01-02_at_03:04:05");
    assert_eq!(join_path("/tmp", "a.png"), "/tmp/a.png");
    assert_eq!(join_path("/tmp/", "a.png"), "/tmp/a.png");
    assert_eq!(join_path("", "a.png"), "a.png");
    assert_eq!(join_path("/tmp", "/etc/a.png"), "/etc/a.png");
    for (directory, name) in [("/tmp", "a.png"), ("/tmp/", "a.png"), ("", "a.png"), ("/tmp", "/a")] {
        let expected = std::path::Path::new(directory).join(name);
        assert_eq!(join_path(directory, name), expected.to_str().unwrap());
    }
    assert_eq!(parse_file_name("/tmp/shots", true, "now"), "/tmp/shots/CodeSnap_now");
    assert_eq!(parse_file_name("/tmp/shot.png", false, "now"), "/tmp/shot.png");
}

#[test]
fn snapshot_is_saved_as_png_only() {
    assert_eq!(save_snapshot(Some("a.png")), Ok("a.png"));
    assert_eq!(save_snapshot(Some("a.jpg")), Err(SaveError::NotPng));
    assert_eq!(save_snapshot(None), Err(SaveError::MissingSavePath));
    assert_eq!(SaveError::NotPng.message(), "The save_path must ends with .png");
    assert_eq!(SaveError::MissingSavePath.message(), "Cannot find 'save_path' in config");
}

#[test]
fn theme_is_found_by_its_file_name() {
    let themes = vec![
        ThemeFile { name: "bamboo.json".to_string(), content: "{\"a\":1}".to_string() },
        ThemeFile { name: "sea.json".to_string(), content: "{\"b\":2}".to_string() },
    ];
    assert_eq!(get_theme("sea", &themes), Some("{\"b\":2}".to_string()));
    assert_eq!(get_theme("bamboo", &themes), Some("{\"a\":1}".to_string()));
    assert_eq!(get_theme("dusk", &themes), None);
    assert_eq!(get_theme("sea.json", &themes), None);
}

#[test]
fn span_style_follows_the_font_style() {
    assert_eq!(Highlight::parse_style(1), SpanStyle::Bold);
    assert_eq!(Highlight::parse_style(4), SpanStyle::Italic);
    assert_eq!(Highlight::parse_style(2), SpanStyle::Regular);
    assert_eq!(Highlight::parse_style(0), SpanStyle::Regular);
    assert_eq!(Highlight::parse_style(5), SpanStyle::Regular);
    let highlight = Highlight::new("fn main() {}".to_string(), "Mono".to_string());
    assert_eq!(highlight.text(), "fn main() {}");
    assert_eq!(highlight.font(), "Mono");
}
