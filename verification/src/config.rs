use crate::components::highlight_code_block::HighlightSpan;
use crate::components::interface::component::BackgroundPaint;
use crate::edges::padding::Padding;
use crate::themes::ThemeFile;
use crate::themes::find_theme;
use crate::themes::get_theme;
use crate::themes::theme_file_name;
use crate::utils::color::RgbaColor;
use crate::utils::color::parse_hex_color;
use vstd::prelude::*;
use vstd::string::StringExecFns;

verus! {

/// The margin round the window that a snapshot has where none is asked for,
/// and the least margin below the window under which a watermark is shown.
pub const DEFAULT_WINDOW_MARGIN: u32 = 82;

/// One coordinate of an end of a gradient: a number of logical pixels, or
/// the far side of the canvas.
#[derive(Clone, Copy, Debug, PartialEq, Eq, Structural)]
pub enum DimensionValue {
    Num(i64),
    Max,
}

/// A pair of coordinates.
#[derive(Clone, Copy, Debug)]
pub struct Point<T> {
    pub x: T,
    pub y: T,
}

/// An end of a gradient.
pub type GradientPoint = Point<DimensionValue>;

impl Point<DimensionValue> {
    /// The point on a canvas of the given size: `Max` stands for the width
    /// of the canvas in `x` and for its height in `y`.
    pub open spec fn spec_into_point(self, pixmap_width: u32, pixmap_height: u32) -> Point<i64> {
        Point {
            x: match self.x {
                DimensionValue::Num(num) => num,
                DimensionValue::Max => pixmap_width as i64,
            },
            y: match self.y {
                DimensionValue::Num(num) => num,
                DimensionValue::Max => pixmap_height as i64,
            },
        }
    }

    pub fn into_f32_point(&self, pixmap_width: u32, pixmap_height: u32) -> (point: Point<i64>)
        ensures
            point == self.spec_into_point(pixmap_width, pixmap_height),
    {
        let x: i64 = match self.x {
            DimensionValue::Num(num) => num,
            DimensionValue::Max => pixmap_width as i64,
        };
        let y: i64 = match self.y {
            DimensionValue::Num(num) => num,
            DimensionValue::Max => pixmap_height as i64,
        };
        Point { x, y }
    }
}

/// The largest position of a gradient stop: the end of the gradient, in
/// thousandths of its length.
pub const MAX_STOP_POSITION: u16 = 1000;

/// A colour at a place along a gradient. The place is given in thousandths
/// of the way from the start of the gradient to its end.
#[derive(Clone, Debug)]
pub struct LinearGradientStop {
    pub position: u16,
    pub color: String,
}

impl LinearGradientStop {
    /// A stop at `position` thousandths of the way.
    pub fn new(position: u16, color: &str) -> (stop: LinearGradientStop)
        requires
            position <= MAX_STOP_POSITION,
        ensures
            stop.position == position,
            stop.color@ == color@,
    {
        LinearGradientStop { position, color: String::from_str(color) }
    }

    /// The stop lies on the gradient and its colour can be read.
    pub open spec fn is_valid(&self) -> bool {
        self.position <= MAX_STOP_POSITION && parse_hex_color(self.color@) is Some
    }

    pub fn check_valid(&self) -> (valid: bool)
        ensures
            valid == self.is_valid(),
    {
        self.position <= MAX_STOP_POSITION && RgbaColor::from_hex(self.color.as_str()).is_some()
    }
}

/// A linear gradient: its two ends and the colours along the way.
#[derive(Clone, Debug)]
pub struct LinearGradient {
    pub start: GradientPoint,
    pub end: GradientPoint,
    pub stops: Vec<LinearGradientStop>,
}

/// What lies behind the window.
#[derive(Clone, Debug)]
pub enum Background {
    /// One colour, written as a hex colour.
    Solid(String),
    Gradient(LinearGradient),
}

impl Background {
    /// The background can be painted: its colours can be read, and a
    /// gradient has at least one stop.
    pub open spec fn is_valid(&self) -> bool {
        match self {
            Background::Solid(color) => parse_hex_color(color@) is Some,
            Background::Gradient(gradient) => {
                &&& gradient.stops@.len() > 0
                &&& forall|i: int|
                    0 <= i < gradient.stops@.len() ==> (#[trigger] gradient.stops@[i]).is_valid()
            },
        }
    }

    pub fn check_valid(&self) -> (valid: bool)
        ensures
            valid == self.is_valid(),
    {
        match self {
            Background::Solid(color) => RgbaColor::from_hex(color.as_str()).is_some(),
            Background::Gradient(gradient) => gradient.check_stops(),
        }
    }
}

impl Background {
    /// What the canvas is filled with for this background.
    pub open spec fn spec_paint(&self) -> BackgroundPaint {
        match self {
            Background::Solid(color) => BackgroundPaint::Solid(parse_hex_color(color@).unwrap()),
            Background::Gradient(gradient) => BackgroundPaint::Gradient {
                start: gradient.start,
                end: gradient.end,
            },
        }
    }

    pub fn paint(&self) -> (paint: BackgroundPaint)
        requires
            self.is_valid(),
        ensures
            paint == self.spec_paint(),
    {
        match self {
            Background::Solid(color) => BackgroundPaint::Solid(
                RgbaColor::from_hex(color.as_str()).unwrap(),
            ),
            Background::Gradient(gradient) => BackgroundPaint::Gradient {
                start: gradient.start,
                end: gradient.end,
            },
        }
    }
}

/// A colour at a place along a gradient, as it is painted. The place is
/// given in thousandths of the way from the start of the gradient to its
/// end.
#[derive(Clone, Copy, Debug, PartialEq, Eq, Structural)]
pub struct ColorStop {
    pub position: u16,
    pub color: RgbaColor,
}

/// The stops that are painted for the given stops of a configuration: the
/// same stops in the same order, each with its colour read.
pub open spec fn color_stops(stops: Seq<LinearGradientStop>) -> Seq<ColorStop> {
    Seq::new(
        stops.len(),
        |i: int|
            ColorStop {
                position: stops[i].position,
                color: parse_hex_color(stops[i].color@).unwrap(),
            },
    )
}

impl Background {
    /// The stops that a gradient is painted with, from first to last; a
    /// single colour has none.
    pub open spec fn spec_paint_stops(&self) -> Seq<ColorStop> {
        match self {
            Background::Solid(_) => Seq::empty(),
            Background::Gradient(gradient) => color_stops(gradient.stops@),
        }
    }

    /// The stops that the canvas is painted with, in the order in which
    /// they lie along the gradient of the configuration. Before the first
    /// stop and after the last their colours go on.
    pub fn paint_stops(&self) -> (stops: Vec<ColorStop>)
        requires
            self.is_valid(),
        ensures
            stops@ == self.spec_paint_stops(),
    {
        match self {
            Background::Solid(_) => Vec::new(),
            Background::Gradient(gradient) => gradient.paint_stops(),
        }
    }
}

impl LinearGradient {
    /// The stops of the gradient as they are painted.
    pub fn paint_stops(&self) -> (stops: Vec<ColorStop>)
        requires
            forall|i: int| 0 <= i < self.stops@.len() ==> (#[trigger] self.stops@[i]).is_valid(),
        ensures
            stops@ == color_stops(self.stops@),
    {
        let mut stops: Vec<ColorStop> = Vec::new();
        let mut index: usize = 0;
        while index < self.stops.len()
            invariant
                index <= self.stops@.len(),
                forall|i: int|
                    0 <= i < self.stops@.len() ==> (#[trigger] self.stops@[i]).is_valid(),
                stops@.len() == index,
                forall|i: int| 0 <= i < index ==> #[trigger] stops@[i] == color_stops(self.stops@)[i],
            decreases self.stops@.len() - index,
        {
            let stop = &self.stops[index];
            assert(self.stops@[index as int].is_valid());
            stops.push(
                ColorStop {
                    position: stop.position,
                    color: RgbaColor::from_hex(stop.color.as_str()).unwrap(),
                },
            );
            index = index + 1;
        }
        assert(stops@ =~= color_stops(self.stops@));
        stops
    }

    /// There is at least one stop, and every stop is valid.
    pub fn check_stops(&self) -> (valid: bool)
        ensures
            valid == (self.stops@.len() > 0 && forall|i: int|
                0 <= i < self.stops@.len() ==> (#[trigger] self.stops@[i]).is_valid()),
    {
        if self.stops.len() == 0 {
            return false;
        }
        let mut index: usize = 0;
        while index < self.stops.len()
            invariant
                index <= self.stops@.len(),
                forall|i: int| 0 <= i < index ==> (#[trigger] self.stops@[i]).is_valid(),
            decreases self.stops@.len() - index,
        {
            if !self.stops[index].check_valid() {
                assert(!self.stops@[index as int].is_valid());
                return false;
            }
            index = index + 1;
        }
        true
    }
}

/// How the title of the window is written.
#[derive(Clone, Debug)]
pub struct TitleConfig {
    pub font_family: String,
    pub color: String,
}

/// The margin round the window: `x` left and right, `y` above and below.
#[derive(Clone, Copy, Debug, PartialEq, Eq, Structural)]
pub struct Margin {
    pub x: u32,
    pub y: u32,
}

impl Margin {
    /// The padding round the window that the margin stands for: `x` left
    /// and right, `y` above and below.
    pub open spec fn spec_padding(&self) -> Padding {
        Padding { left: self.x, right: self.x, top: self.y, bottom: self.y }
    }

    pub fn padding(&self) -> (padding: Padding)
        ensures
            padding == self.spec_padding(),
    {
        Padding { left: self.x, right: self.x, top: self.y, bottom: self.y }
    }
}

/// How the path of the file is written above the code.
#[derive(Clone, Debug)]
pub struct Breadcrumbs {
    pub enable: bool,
    pub separator: String,
    pub font_family: String,
    pub color: String,
}

/// The border of the window.
#[derive(Clone, Debug)]
pub struct Border {
    pub color: String,
    pub width: u32,
}

/// The shadow of the window.
#[derive(Clone, Debug)]
pub struct Shadow {
    pub radius: u32,
    pub color: String,
}

/// The window that holds the content.
#[derive(Clone, Debug)]
pub struct Window {
    pub margin: Margin,
    pub title_config: TitleConfig,
    pub border: Border,
    pub mac_window_bar: bool,
    pub shadow: Shadow,
}

/// Lines of the code to highlight: one line, or a run of lines with both
/// ends included, and the colour to highlight them with.
#[derive(Clone, Debug)]
pub enum HighlightLine {
    Single(u32, String),
    Range(u32, u32, String),
}

impl HighlightLine {
    /// The first line that is named.
    pub open spec fn spec_start(&self) -> u32 {
        match self {
            HighlightLine::Single(line_number, _) => *line_number,
            HighlightLine::Range(start_line_number, _, _) => *start_line_number,
        }
    }

    /// The second line that is named; for one line, that line.
    pub open spec fn spec_end(&self) -> u32 {
        match self {
            HighlightLine::Single(line_number, _) => *line_number,
            HighlightLine::Range(_, end_line_number, _) => *end_line_number,
        }
    }

    /// The colour as it is written.
    pub open spec fn spec_color(&self) -> Seq<char> {
        match self {
            HighlightLine::Single(_, color) => color@,
            HighlightLine::Range(_, _, color) => color@,
        }
    }

    /// The run of lines with its colour read, where the colour can be read.
    pub open spec fn spec_span(&self) -> Option<HighlightSpan> {
        match parse_hex_color(self.spec_color()) {
            Some(color) => Some(
                HighlightSpan {
                    start_line_number: self.spec_start(),
                    end_line_number: self.spec_end(),
                    color,
                },
            ),
            None => None,
        }
    }

    pub fn span(&self) -> (span: Option<HighlightSpan>)
        ensures
            span == self.spec_span(),
    {
        let (start_line_number, end_line_number, color): (u32, u32, &String) = match self {
            HighlightLine::Single(line_number, color) => (*line_number, *line_number, color),
            HighlightLine::Range(start_line_number, end_line_number, color) => (
                *start_line_number,
                *end_line_number,
                color,
            ),
        };
        match RgbaColor::from_hex(color.as_str()) {
            Some(color) => Some(HighlightSpan { start_line_number, end_line_number, color }),
            None => None,
        }
    }
}

/// A command and what it printed.
#[derive(Clone, Debug)]
pub struct CommandLineContent {
    pub content: String,
    pub full_command: String,
}

/// The code of a snapshot.
#[derive(Clone, Debug)]
pub struct Code {
    pub content: String,
    /// The number of the first line; without it no line numbers are shown.
    pub start_line_number: Option<u32>,
    pub highlight_lines: Vec<HighlightLine>,
    /// The language to highlight the code as.
    pub language: Option<String>,
    pub file_path: Option<String>,
}

/// How a command and its output are written.
#[derive(Clone, Debug)]
pub struct CommandOutputConfig {
    pub prompt: String,
    pub font_family: String,
    pub prompt_color: String,
    pub command_color: String,
    pub string_arg_color: String,
}

/// What a snapshot shows.
#[derive(Clone, Debug)]
pub enum Content {
    Code(Code),
    CommandOutput(Vec<CommandLineContent>),
}

/// How the code is written.
#[derive(Clone, Debug)]
pub struct CodeConfig {
    pub font_family: String,
    pub breadcrumbs: Breadcrumbs,
}

/// A label below the window.
#[derive(Clone, Debug)]
pub struct Watermark {
    pub content: String,
    pub font_family: String,
    pub color: String,
}

/// All that a snapshot is made from.
#[derive(Clone, Debug)]
pub struct SnapshotConfig {
    pub window: Window,
    pub command_output_config: CommandOutputConfig,
    pub code_config: CodeConfig,
    pub watermark: Option<Watermark>,
    pub content: Content,
    /// How many pixels of the image one logical pixel takes, in each
    /// direction. At least 1.
    pub scale_factor: u8,
    pub themes_folders: Vec<String>,
    pub fonts_folders: Vec<String>,
    pub theme: String,
    pub background: Background,
    pub line_number_color: String,
    pub title: Option<String>,
}

/// The font that is used where no font is said.
pub const DEFAULT_FONT_FAMILY: &'static str = "CaskaydiaCove Nerd Font";

/// The colour of the title where no colour is said.
pub const DEFAULT_TITLE_COLOR: &'static str = "#aca9b2";

/// The colour of the border where no colour is said.
pub const DEFAULT_BORDER_COLOR: &'static str = "#ffffff30";

/// The width of the border where no width is said.
pub const DEFAULT_BORDER_WIDTH: u32 = 1;

/// The radius of the blur of the shadow where none is said.
pub const DEFAULT_SHADOW_RADIUS: u32 = 20;

/// The colour of the shadow where no colour is said.
pub const DEFAULT_SHADOW_COLOR: &'static str = "#0000004d";

/// What stands between the parts of a path where nothing is said.
pub const DEFAULT_BREADCRUMBS_SEPARATOR: &'static str = "/";

/// The colour of the path where no colour is said.
pub const DEFAULT_BREADCRUMBS_COLOR: &'static str = "#80848b";

/// The prompt before a command where none is said.
pub const DEFAULT_PROMPT: &'static str = "\u{276f}";

/// The colour of the prompt where no colour is said.
pub const DEFAULT_PROMPT_COLOR: &'static str = "#F78FB3";

/// The colour of a command where no colour is said.
pub const DEFAULT_COMMAND_COLOR: &'static str = "#98C379";

/// The colour of a quoted argument where no colour is said.
pub const DEFAULT_STRING_ARG_COLOR: &'static str = "#ff0000";

/// The font of the watermark where no font is said.
pub const DEFAULT_WATERMARK_FONT_FAMILY: &'static str = "Pacifico";

/// The colour of the watermark where no colour is said.
pub const DEFAULT_WATERMARK_COLOR: &'static str = "#ffffff";

/// The theme of the code where none is said.
pub const DEFAULT_THEME: &'static str = "candy";

/// The colour of the line numbers where no colour is said.
pub const DEFAULT_LINE_NUMBER_COLOR: &'static str = "#495162";

/// The scale factor where none is said: the image has three pixels for
/// each logical pixel, in each direction.
pub const DEFAULT_SCALE_FACTOR: u8 = 3;

/// The name of the theme that a configuration is made from where no theme
/// is named.
pub const DEFAULT_THEME_CONFIG: &'static str = "bamboo";

impl Default for TitleConfig {
    fn default() -> (config: TitleConfig)
        ensures
            config.font_family@ == DEFAULT_FONT_FAMILY@,
            config.color@ == DEFAULT_TITLE_COLOR@,
    {
        TitleConfig {
            font_family: String::from_str(DEFAULT_FONT_FAMILY),
            color: String::from_str(DEFAULT_TITLE_COLOR),
        }
    }
}

impl Default for Margin {
    fn default() -> (margin: Margin)
        ensures
            margin == (Margin { x: DEFAULT_WINDOW_MARGIN, y: DEFAULT_WINDOW_MARGIN }),
    {
        Margin { x: DEFAULT_WINDOW_MARGIN, y: DEFAULT_WINDOW_MARGIN }
    }
}

impl Default for Breadcrumbs {
    fn default() -> (breadcrumbs: Breadcrumbs)
        ensures
            !breadcrumbs.enable,
            breadcrumbs.separator@ == DEFAULT_BREADCRUMBS_SEPARATOR@,
            breadcrumbs.font_family@ == DEFAULT_FONT_FAMILY@,
            breadcrumbs.color@ == DEFAULT_BREADCRUMBS_COLOR@,
    {
        Breadcrumbs {
            enable: false,
            separator: String::from_str(DEFAULT_BREADCRUMBS_SEPARATOR),
            font_family: String::from_str(DEFAULT_FONT_FAMILY),
            color: String::from_str(DEFAULT_BREADCRUMBS_COLOR),
        }
    }
}

impl Default for Border {
    fn default() -> (border: Border)
        ensures
            border.color@ == DEFAULT_BORDER_COLOR@,
            border.width == DEFAULT_BORDER_WIDTH,
    {
        Border { color: String::from_str(DEFAULT_BORDER_COLOR), width: DEFAULT_BORDER_WIDTH }
    }
}

impl Default for Shadow {
    fn default() -> (shadow: Shadow)
        ensures
            shadow.radius == DEFAULT_SHADOW_RADIUS,
            shadow.color@ == DEFAULT_SHADOW_COLOR@,
    {
        Shadow { radius: DEFAULT_SHADOW_RADIUS, color: String::from_str(DEFAULT_SHADOW_COLOR) }
    }
}

impl Window {
    /// The window is the one that is taken where nothing is said of it.
    pub open spec fn is_default(&self) -> bool {
        &&& self.margin == (Margin { x: DEFAULT_WINDOW_MARGIN, y: DEFAULT_WINDOW_MARGIN })
        &&& self.title_config.font_family@ == DEFAULT_FONT_FAMILY@
        &&& self.title_config.color@ == DEFAULT_TITLE_COLOR@
        &&& self.border.color@ == DEFAULT_BORDER_COLOR@
        &&& self.border.width == DEFAULT_BORDER_WIDTH
        &&& self.mac_window_bar
        &&& self.shadow.radius == DEFAULT_SHADOW_RADIUS
        &&& self.shadow.color@ == DEFAULT_SHADOW_COLOR@
    }
}

impl Default for Window {
    fn default() -> (window: Window)
        ensures
            window.is_default(),
    {
        Window {
            margin: Margin::default(),
            title_config: TitleConfig::default(),
            border: Border::default(),
            mac_window_bar: true,
            shadow: Shadow::default(),
        }
    }
}

impl CommandOutputConfig {
    /// The configuration is the one that is taken where nothing is said
    /// of it.
    pub open spec fn is_default(&self) -> bool {
        &&& self.prompt@ == DEFAULT_PROMPT@
        &&& self.font_family@ == DEFAULT_FONT_FAMILY@
        &&& self.prompt_color@ == DEFAULT_PROMPT_COLOR@
        &&& self.command_color@ == DEFAULT_COMMAND_COLOR@
        &&& self.string_arg_color@ == DEFAULT_STRING_ARG_COLOR@
    }
}

impl Default for CommandOutputConfig {
    fn default() -> (config: CommandOutputConfig)
        ensures
            config.is_default(),
    {
        CommandOutputConfig {
            prompt: String::from_str(DEFAULT_PROMPT),
            font_family: String::from_str(DEFAULT_FONT_FAMILY),
            prompt_color: String::from_str(DEFAULT_PROMPT_COLOR),
            command_color: String::from_str(DEFAULT_COMMAND_COLOR),
            string_arg_color: String::from_str(DEFAULT_STRING_ARG_COLOR),
        }
    }
}

impl CodeConfig {
    /// The configuration is the one that is taken where nothing is said
    /// of it.
    pub open spec fn is_default(&self) -> bool {
        &&& self.font_family@ == DEFAULT_FONT_FAMILY@
        &&& !self.breadcrumbs.enable
        &&& self.breadcrumbs.separator@ == DEFAULT_BREADCRUMBS_SEPARATOR@
        &&& self.breadcrumbs.font_family@ == DEFAULT_FONT_FAMILY@
        &&& self.breadcrumbs.color@ == DEFAULT_BREADCRUMBS_COLOR@
    }
}

impl Default for CodeConfig {
    fn default() -> (config: CodeConfig)
        ensures
            config.is_default(),
    {
        CodeConfig {
            font_family: String::from_str(DEFAULT_FONT_FAMILY),
            breadcrumbs: Breadcrumbs::default(),
        }
    }
}

impl Watermark {
    /// A watermark with the given text, in the default font and colour.
    pub fn new(content: String) -> (watermark: Watermark)
        ensures
            watermark.content == content,
            watermark.font_family@ == DEFAULT_WATERMARK_FONT_FAMILY@,
            watermark.color@ == DEFAULT_WATERMARK_COLOR@,
    {
        Watermark {
            content,
            font_family: String::from_str(DEFAULT_WATERMARK_FONT_FAMILY),
            color: String::from_str(DEFAULT_WATERMARK_COLOR),
        }
    }
}

impl Code {
    /// The code with the given text and nothing else said of it.
    pub fn new(content: String) -> (code: Code)
        ensures
            code.content == content,
            code.start_line_number is None,
            code.highlight_lines@.len() == 0,
            code.language is None,
            code.file_path is None,
    {
        Code {
            content,
            start_line_number: None,
            highlight_lines: Vec::new(),
            language: None,
            file_path: None,
        }
    }
}

/// Why a configuration could not be built.
#[derive(Clone, Copy, Debug, PartialEq, Eq, Structural)]
pub enum CodeSnapError {
    /// Nothing was said of the content.
    MissingContent,
    /// Nothing was said of the background.
    MissingBackground,
    /// The scale factor is less than 1.
    InvalidScaleFactor,
}

impl CodeSnapError {
    /// The text shown to the user for this error.
    pub fn message(&self) -> (text: &'static str)
        ensures
            text@ == match *self {
                CodeSnapError::MissingContent => "`content` must be initialized"@,
                CodeSnapError::MissingBackground => "`background` must be initialized"@,
                CodeSnapError::InvalidScaleFactor => "The scale factor must be greater than 1"@,
            },
    {
        match self {
            CodeSnapError::MissingContent => "`content` must be initialized",
            CodeSnapError::MissingBackground => "`background` must be initialized",
            CodeSnapError::InvalidScaleFactor => "The scale factor must be greater than 1",
        }
    }
}

/// A configuration in the making: of every part either something is said
/// or nothing.
pub struct CodeSnap {
    pub window: Option<Window>,
    pub command_output_config: Option<CommandOutputConfig>,
    pub code_config: Option<CodeConfig>,
    pub watermark: Option<Option<Watermark>>,
    pub content: Option<Content>,
    pub scale_factor: Option<u8>,
    pub themes_folders: Option<Vec<String>>,
    pub fonts_folders: Option<Vec<String>>,
    pub theme: Option<String>,
    pub background: Option<Background>,
    pub line_number_color: Option<String>,
    pub title: Option<Option<String>>,
}

impl Default for CodeSnap {
    fn default() -> (builder: CodeSnap)
        ensures
            builder == CodeSnap::spec_empty(),
    {
        CodeSnap {
            window: None,
            command_output_config: None,
            code_config: None,
            watermark: None,
            content: None,
            scale_factor: None,
            themes_folders: None,
            fonts_folders: None,
            theme: None,
            background: None,
            line_number_color: None,
            title: None,
        }
    }
}

impl CodeSnap {
    /// The configuration in the making of which nothing is said yet.
    pub open spec fn spec_empty() -> CodeSnap {
        CodeSnap {
            window: None,
            command_output_config: None,
            code_config: None,
            watermark: None,
            content: None,
            scale_factor: None,
            themes_folders: None,
            fonts_folders: None,
            theme: None,
            background: None,
            line_number_color: None,
            title: None,
        }
    }

    /// What stands in the way of building the configuration, if anything.
    /// A scale factor of less than 1 is found first, then a missing content,
    /// then a missing background.
    pub open spec fn spec_check(&self) -> Result<(), CodeSnapError> {
        if self.scale_factor == Some(0u8) {
            Err(CodeSnapError::InvalidScaleFactor)
        } else if self.content is None {
            Err(CodeSnapError::MissingContent)
        } else if self.background is None {
            Err(CodeSnapError::MissingBackground)
        } else {
            Ok(())
        }
    }

    pub fn window(self, window: Window) -> (builder: CodeSnap)
        ensures
            builder == (CodeSnap { window: Some(window), ..self }),
    {
        CodeSnap { window: Some(window), ..self }
    }

    pub fn command_output_config(self, command_output_config: CommandOutputConfig) -> (builder:
        CodeSnap)
        ensures
            builder == (CodeSnap { command_output_config: Some(command_output_config), ..self }),
    {
        CodeSnap { command_output_config: Some(command_output_config), ..self }
    }

    pub fn code_config(self, code_config: CodeConfig) -> (builder: CodeSnap)
        ensures
            builder == (CodeSnap { code_config: Some(code_config), ..self }),
    {
        CodeSnap { code_config: Some(code_config), ..self }
    }

    pub fn watermark(self, watermark: Option<Watermark>) -> (builder: CodeSnap)
        ensures
            builder == (CodeSnap { watermark: Some(watermark), ..self }),
    {
        CodeSnap { watermark: Some(watermark), ..self }
    }

    pub fn content(self, content: Content) -> (builder: CodeSnap)
        ensures
            builder == (CodeSnap { content: Some(content), ..self }),
    {
        CodeSnap { content: Some(content), ..self }
    }

    /// Says that the content is the given code.
    pub fn code(self, code: Code) -> (builder: CodeSnap)
        ensures
            builder == (CodeSnap { content: Some(Content::Code(code)), ..self }),
    {
        CodeSnap { content: Some(Content::Code(code)), ..self }
    }

    pub fn scale_factor(self, scale_factor: u8) -> (builder: CodeSnap)
        ensures
            builder == (CodeSnap { scale_factor: Some(scale_factor), ..self }),
    {
        CodeSnap { scale_factor: Some(scale_factor), ..self }
    }

    pub fn themes_folders(self, themes_folders: Vec<String>) -> (builder: CodeSnap)
        ensures
            builder == (CodeSnap { themes_folders: Some(themes_folders), ..self }),
    {
        CodeSnap { themes_folders: Some(themes_folders), ..self }
    }

    pub fn fonts_folders(self, fonts_folders: Vec<String>) -> (builder: CodeSnap)
        ensures
            builder == (CodeSnap { fonts_folders: Some(fonts_folders), ..self }),
    {
        CodeSnap { fonts_folders: Some(fonts_folders), ..self }
    }

    pub fn theme(self, theme: String) -> (builder: CodeSnap)
        ensures
            builder == (CodeSnap { theme: Some(theme), ..self }),
    {
        CodeSnap { theme: Some(theme), ..self }
    }

    pub fn background(self, background: Background) -> (builder: CodeSnap)
        ensures
            builder == (CodeSnap { background: Some(background), ..self }),
    {
        CodeSnap { background: Some(background), ..self }
    }

    pub fn line_number_color(self, line_number_color: String) -> (builder: CodeSnap)
        ensures
            builder == (CodeSnap { line_number_color: Some(line_number_color), ..self }),
    {
        CodeSnap { line_number_color: Some(line_number_color), ..self }
    }

    pub fn title(self, title: Option<String>) -> (builder: CodeSnap)
        ensures
            builder == (CodeSnap { title: Some(title), ..self }),
    {
        CodeSnap { title: Some(title), ..self }
    }

    /// Checks what can be checked before the configuration is built: the
    /// scale factor, where one is said, is at least 1.
    pub fn validate(&self) -> (valid: Result<(), CodeSnapError>)
        ensures
            valid == if self.scale_factor == Some(0u8) {
                Err::<(), CodeSnapError>(CodeSnapError::InvalidScaleFactor)
            } else {
                Ok::<(), CodeSnapError>(())
            },
    {
        match self.scale_factor {
            Some(scale_factor) => {
                if scale_factor < 1 {
                    return Err(CodeSnapError::InvalidScaleFactor);
                }
            },
            None => {},
        }
        Ok(())
    }

    /// Builds the configuration: every part is as it was said, and as the
    /// default where nothing was said of it. The content and the background
    /// have no default.
    pub fn build(self) -> (config: Result<SnapshotConfig, CodeSnapError>)
        ensures
            match self.spec_check() {
                Err(error) => config is Err && config->Err_0 == error,
                Ok(()) => {
                    &&& config is Ok
                    &&& config.unwrap().content == self.content.unwrap()
                    &&& config.unwrap().background == self.background.unwrap()
                    &&& match self.window {
                        Some(window) => config.unwrap().window == window,
                        None => config.unwrap().window.is_default(),
                    }
                    &&& match self.command_output_config {
                        Some(command_output_config) => config.unwrap().command_output_config
                            == command_output_config,
                        None => config.unwrap().command_output_config.is_default(),
                    }
                    &&& match self.code_config {
                        Some(code_config) => config.unwrap().code_config == code_config,
                        None => config.unwrap().code_config.is_default(),
                    }
                    &&& config.unwrap().watermark == match self.watermark {
                        Some(watermark) => watermark,
                        None => None,
                    }
                    &&& config.unwrap().scale_factor == match self.scale_factor {
                        Some(scale_factor) => scale_factor,
                        None => DEFAULT_SCALE_FACTOR,
                    }
                    &&& match self.themes_folders {
                        Some(themes_folders) => config.unwrap().themes_folders == themes_folders,
                        None => config.unwrap().themes_folders@.len() == 0,
                    }
                    &&& match self.fonts_folders {
                        Some(fonts_folders) => config.unwrap().fonts_folders == fonts_folders,
                        None => config.unwrap().fonts_folders@.len() == 0,
                    }
                    &&& config.unwrap().theme@ == match self.theme {
                        Some(theme) => theme@,
                        None => DEFAULT_THEME@,
                    }
                    &&& config.unwrap().line_number_color@ == match self.line_number_color {
                        Some(color) => color@,
                        None => DEFAULT_LINE_NUMBER_COLOR@,
                    }
                    &&& config.unwrap().title == match self.title {
                        Some(title) => title,
                        None => None,
                    }
                },
            },
    {
        match self.validate() {
            Ok(()) => {},
            Err(error) => {
                return Err(error);
            },
        }
        let content = match self.content {
            Some(content) => content,
            None => {
                return Err(CodeSnapError::MissingContent);
            },
        };
        let background = match self.background {
            Some(background) => background,
            None => {
                return Err(CodeSnapError::MissingBackground);
            },
        };
        Ok(
            SnapshotConfig {
                window: match self.window {
                    Some(window) => window,
                    None => Window::default(),
                },
                command_output_config: match self.command_output_config {
                    Some(command_output_config) => command_output_config,
                    None => CommandOutputConfig::default(),
                },
                code_config: match self.code_config {
                    Some(code_config) => code_config,
                    None => CodeConfig::default(),
                },
                watermark: match self.watermark {
                    Some(watermark) => watermark,
                    None => None,
                },
                content,
                scale_factor: match self.scale_factor {
                    Some(scale_factor) => scale_factor,
                    None => DEFAULT_SCALE_FACTOR,
                },
                themes_folders: match self.themes_folders {
                    Some(themes_folders) => themes_folders,
                    None => Vec::new(),
                },
                fonts_folders: match self.fonts_folders {
                    Some(fonts_folders) => fonts_folders,
                    None => Vec::new(),
                },
                theme: match self.theme {
                    Some(theme) => theme,
                    None => String::from_str(DEFAULT_THEME),
                },
                background,
                line_number_color: match self.line_number_color {
                    Some(color) => color,
                    None => String::from_str(DEFAULT_LINE_NUMBER_COLOR),
                },
                title: match self.title {
                    Some(title) => title,
                    None => None,
                },
            },
        )
    }
}

/// The scale factor of a configuration that says none.
pub fn default_scale_factor() -> (scale_factor: u8)
    ensures
        scale_factor == DEFAULT_SCALE_FACTOR,
{
    DEFAULT_SCALE_FACTOR
}

impl Code {
    /// The code is the one that stands in where nothing is said of the
    /// content: an empty text.
    pub open spec fn is_empty_code(&self) -> bool {
        &&& self.content@.len() == 0
        &&& self.start_line_number is None
        &&& self.highlight_lines@.len() == 0
        &&& self.language is None
        &&& self.file_path is None
    }
}

impl CodeSnap {
    /// The window that is handed to a function that maps it: the one that
    /// was said, else a default one.
    pub open spec fn is_window_input(&self, window: Window) -> bool {
        match self.window {
            Some(said) => window == said,
            None => window.is_default(),
        }
    }

    /// The configuration of the code that is handed to a function that maps
    /// it: the one that was said, else a default one.
    pub open spec fn is_code_config_input(&self, code_config: CodeConfig) -> bool {
        match self.code_config {
            Some(said) => code_config == said,
            None => code_config.is_default(),
        }
    }

    /// The code that is handed to a function that maps it: the one that
    /// was said, else an empty one. None is handed on where the content is
    /// no code.
    pub open spec fn is_code_input(&self, code: Code) -> bool {
        match self.content {
            Some(Content::Code(said)) => code == said,
            Some(Content::CommandOutput(_)) => false,
            None => code.is_empty_code(),
        }
    }

    /// The watermark that is handed to a function that maps it: the one
    /// that was said, else none.
    pub open spec fn watermark_input(&self) -> Option<Watermark> {
        match self.watermark {
            Some(said) => said,
            None => None,
        }
    }

    /// Puts in place of the configuration of the code what `f` makes of it.
    /// Where `f` fails, so does this, with the error of `f`.
    pub fn map_code_config<E, F: FnOnce(CodeConfig) -> Result<CodeConfig, E>>(self, f: F) -> (mapped:
        Result<CodeSnap, E>)
        requires
            forall|input: CodeConfig|
                self.is_code_config_input(input) ==> #[trigger] call_requires(f, (input,)),
        ensures
            match mapped {
                Ok(builder) => {
                    &&& builder.code_config is Some
                    &&& builder == (CodeSnap { code_config: builder.code_config, ..self })
                    &&& exists|input: CodeConfig|
                        self.is_code_config_input(input) && call_ensures(
                            f,
                            (input,),
                            Ok(builder.code_config.unwrap()),
                        )
                },
                Err(error) => exists|input: CodeConfig|
                    self.is_code_config_input(input) && call_ensures(f, (input,), Err(error)),
            },
    {
        let input = match self.code_config {
            Some(code_config) => code_config,
            None => CodeConfig::default(),
        };
        assert(self.is_code_config_input(input));
        let ghost handed = input;
        let outcome = f(input);
        assert(call_ensures(f, (handed,), outcome));
        match outcome {
            Ok(code_config) => Ok(CodeSnap { code_config: Some(code_config), ..self }),
            Err(error) => Err(error),
        }
    }

    /// Puts in place of the code what `f` makes of it. A content that is
    /// no code stays as it is, and `f` is not called.
    pub fn map_code<E, F: FnOnce(Code) -> Result<Content, E>>(self, f: F) -> (mapped: Result<
        CodeSnap,
        E,
    >)
        requires
            forall|input: Code| self.is_code_input(input) ==> #[trigger] call_requires(f, (input,)),
        ensures
            self.content matches Some(Content::CommandOutput(_)) ==> mapped is Ok
                && mapped->Ok_0 == self,
            !(self.content matches Some(Content::CommandOutput(_))) ==> match mapped {
                Ok(builder) => {
                    &&& builder.content is Some
                    &&& builder == (CodeSnap { content: builder.content, ..self })
                    &&& exists|input: Code|
                        self.is_code_input(input) && call_ensures(
                            f,
                            (input,),
                            Ok(builder.content.unwrap()),
                        )
                },
                Err(error) => exists|input: Code|
                    self.is_code_input(input) && call_ensures(f, (input,), Err(error)),
            },
    {
        let code_content = match self.content {
            Some(Content::Code(code_content)) => code_content,
            Some(Content::CommandOutput(entries)) => {
                return Ok(CodeSnap { content: Some(Content::CommandOutput(entries)), ..self });
            },
            None => {
                proof {
                    reveal_strlit("");
                }
                Code::new(String::from_str(""))
            },
        };
        assert(self.is_code_input(code_content));
        let ghost handed = code_content;
        let outcome = f(code_content);
        assert(call_ensures(f, (handed,), outcome));
        match outcome {
            Ok(content) => Ok(CodeSnap { content: Some(content), ..self }),
            Err(error) => Err(error),
        }
    }

    /// Puts in place of the window what `f` makes of it.
    pub fn map_window<E, F: FnOnce(Window) -> Result<Window, E>>(self, f: F) -> (mapped: Result<
        CodeSnap,
        E,
    >)
        requires
            forall|input: Window|
                self.is_window_input(input) ==> #[trigger] call_requires(f, (input,)),
        ensures
            match mapped {
                Ok(builder) => {
                    &&& builder.window is Some
                    &&& builder == (CodeSnap { window: builder.window, ..self })
                    &&& exists|input: Window|
                        self.is_window_input(input) && call_ensures(
                            f,
                            (input,),
                            Ok(builder.window.unwrap()),
                        )
                },
                Err(error) => exists|input: Window|
                    self.is_window_input(input) && call_ensures(f, (input,), Err(error)),
            },
    {
        let input = match self.window {
            Some(window) => window,
            None => Window::default(),
        };
        assert(self.is_window_input(input));
        let ghost handed = input;
        let outcome = f(input);
        assert(call_ensures(f, (handed,), outcome));
        match outcome {
            Ok(window) => Ok(CodeSnap { window: Some(window), ..self }),
            Err(error) => Err(error),
        }
    }

    /// Puts in place of the watermark what `f` makes of it.
    pub fn map_watermark<E, F: FnOnce(Option<Watermark>) -> Result<Option<Watermark>, E>>(
        self,
        f: F,
    ) -> (mapped: Result<CodeSnap, E>)
        requires
            call_requires(f, (self.watermark_input(),)),
        ensures
            match mapped {
                Ok(builder) => {
                    &&& builder.watermark is Some
                    &&& builder == (CodeSnap { watermark: builder.watermark, ..self })
                    &&& call_ensures(
                        f,
                        (self.watermark_input(),),
                        Ok(builder.watermark.unwrap()),
                    )
                },
                Err(error) => call_ensures(f, (self.watermark_input(),), Err(error)),
            },
    {
        let input = match self.watermark {
            Some(watermark) => watermark,
            None => None,
        };
        match f(input) {
            Ok(watermark) => Ok(CodeSnap { watermark: Some(watermark), ..self }),
            Err(error) => Err(error),
        }
    }
}

/// A window in the making.
pub struct WindowBuilder {
    pub margin: Option<Margin>,
    pub title_config: Option<TitleConfig>,
    pub border: Option<Border>,
    pub mac_window_bar: Option<bool>,
    pub shadow: Option<Shadow>,
}

impl WindowBuilder {
    /// The window in the making of which everything is said as `window`
    /// says it.
    pub fn from_window(window: Window) -> (builder: WindowBuilder)
        ensures
            builder == (WindowBuilder {
                margin: Some(window.margin),
                title_config: Some(window.title_config),
                border: Some(window.border),
                mac_window_bar: Some(window.mac_window_bar),
                shadow: Some(window.shadow),
            }),
    {
        WindowBuilder {
            margin: Some(window.margin),
            title_config: Some(window.title_config),
            border: Some(window.border),
            mac_window_bar: Some(window.mac_window_bar),
            shadow: Some(window.shadow),
        }
    }

    /// Builds the window: every part is as it was said, and as the default
    /// where nothing was said of it.
    pub fn build(self) -> (window: Window)
        ensures
            window.margin == match self.margin {
                Some(margin) => margin,
                None => (Margin { x: DEFAULT_WINDOW_MARGIN, y: DEFAULT_WINDOW_MARGIN }),
            },
            match self.title_config {
                Some(title_config) => window.title_config == title_config,
                None => window.title_config.font_family@ == DEFAULT_FONT_FAMILY@
                    && window.title_config.color@ == DEFAULT_TITLE_COLOR@,
            },
            match self.border {
                Some(border) => window.border == border,
                None => window.border.color@ == DEFAULT_BORDER_COLOR@ && window.border.width
                    == DEFAULT_BORDER_WIDTH,
            },
            window.mac_window_bar == match self.mac_window_bar {
                Some(shown) => shown,
                None => true,
            },
            match self.shadow {
                Some(shadow) => window.shadow == shadow,
                None => window.shadow.radius == DEFAULT_SHADOW_RADIUS && window.shadow.color@
                    == DEFAULT_SHADOW_COLOR@,
            },
    {
        Window {
            margin: match self.margin {
                Some(margin) => margin,
                None => Margin::default(),
            },
            title_config: match self.title_config {
                Some(title_config) => title_config,
                None => TitleConfig::default(),
            },
            border: match self.border {
                Some(border) => border,
                None => Border::default(),
            },
            mac_window_bar: match self.mac_window_bar {
                Some(shown) => shown,
                None => true,
            },
            shadow: match self.shadow {
                Some(shadow) => shadow,
                None => Shadow::default(),
            },
        }
    }
}

/// A watermark in the making.
pub struct WatermarkBuilder {
    pub content: Option<String>,
    pub font_family: Option<String>,
    pub color: Option<String>,
}

/// Why a watermark could not be built.
#[derive(Clone, Copy, Debug, PartialEq, Eq, Structural)]
pub enum WatermarkError {
    /// Nothing was said of the text.
    MissingContent,
}

impl Default for WatermarkBuilder {
    fn default() -> (builder: WatermarkBuilder)
        ensures
            builder == (WatermarkBuilder { content: None, font_family: None, color: None }),
    {
        WatermarkBuilder { content: None, font_family: None, color: None }
    }
}

impl WatermarkBuilder {
    /// The watermark in the making of which everything is said as
    /// `watermark` says it; of which nothing is said where there is none.
    pub fn from_watermark(watermark: Option<Watermark>) -> (builder: WatermarkBuilder)
        ensures
            builder == match watermark {
                Some(watermark) => (WatermarkBuilder {
                    content: Some(watermark.content),
                    font_family: Some(watermark.font_family),
                    color: Some(watermark.color),
                }),
                None => (WatermarkBuilder { content: None, font_family: None, color: None }),
            },
    {
        match watermark {
            Some(watermark) => WatermarkBuilder {
                content: Some(watermark.content),
                font_family: Some(watermark.font_family),
                color: Some(watermark.color),
            },
            None => WatermarkBuilder::default(),
        }
    }

    pub fn content(self, content: String) -> (builder: WatermarkBuilder)
        ensures
            builder == (WatermarkBuilder { content: Some(content), ..self }),
    {
        WatermarkBuilder { content: Some(content), ..self }
    }

    pub fn font_family(self, font_family: String) -> (builder: WatermarkBuilder)
        ensures
            builder == (WatermarkBuilder { font_family: Some(font_family), ..self }),
    {
        WatermarkBuilder { font_family: Some(font_family), ..self }
    }

    pub fn color(self, color: String) -> (builder: WatermarkBuilder)
        ensures
            builder == (WatermarkBuilder { color: Some(color), ..self }),
    {
        WatermarkBuilder { color: Some(color), ..self }
    }

    /// Builds the watermark. The text has no default.
    pub fn build(self) -> (watermark: Result<Watermark, WatermarkError>)
        ensures
            match self.content {
                None => watermark is Err && watermark->Err_0 == WatermarkError::MissingContent,
                Some(content) => {
                    &&& watermark is Ok
                    &&& watermark.unwrap().content == content
                    &&& watermark.unwrap().font_family@ == match self.font_family {
                        Some(font_family) => font_family@,
                        None => DEFAULT_WATERMARK_FONT_FAMILY@,
                    }
                    &&& watermark.unwrap().color@ == match self.color {
                        Some(color) => color@,
                        None => DEFAULT_WATERMARK_COLOR@,
                    }
                },
            },
    {
        match self.content {
            None => Err(WatermarkError::MissingContent),
            Some(content) => Ok(
                Watermark {
                    content,
                    font_family: match self.font_family {
                        Some(font_family) => font_family,
                        None => String::from_str(DEFAULT_WATERMARK_FONT_FAMILY),
                    },
                    color: match self.color {
                        Some(color) => color,
                        None => String::from_str(DEFAULT_WATERMARK_COLOR),
                    },
                },
            ),
        }
    }
}

/// Why no configuration was made from a theme.
#[derive(Debug)]
pub enum ThemeConfigError<E> {
    /// There is no theme of that name.
    UnknownTheme,
    /// The configuration of the theme could not be read.
    Invalid(E),
}

impl CodeSnap {
    /// The configuration in the making that the default theme stands for.
    pub fn from_default_theme<E, F: FnOnce(String) -> Result<CodeSnap, E>>(
        theme_configs: &Vec<ThemeFile>,
        from_config: F,
    ) -> (builder: Result<CodeSnap, ThemeConfigError<E>>)
        requires
            forall|config: String| #[trigger] call_requires(from_config, (config,)),
        ensures
            ({
                let place = find_theme(theme_configs@, theme_file_name(DEFAULT_THEME_CONFIG@));
                if place < theme_configs@.len() {
                    exists|config: String, outcome: Result<CodeSnap, E>|
                        {
                            &&& config@ == theme_configs@[place].content@
                            &&& call_ensures(from_config, (config,), outcome)
                            &&& match outcome {
                                Ok(read) => builder is Ok && builder->Ok_0 == read,
                                Err(error) => builder matches Err(ThemeConfigError::Invalid(found))
                                    && found == error,
                            }
                        }
                } else {
                    builder is Err && builder->Err_0 is UnknownTheme
                }
            }),
    {
        CodeSnap::from_theme(DEFAULT_THEME_CONFIG, theme_configs, from_config)
    }

    /// The configuration in the making that a theme stands for: what
    /// `from_config` reads from the configuration of the theme, among the
    /// configurations that come with the library.
    pub fn from_theme<E, F: FnOnce(String) -> Result<CodeSnap, E>>(
        theme_name: &str,
        theme_configs: &Vec<ThemeFile>,
        from_config: F,
    ) -> (builder: Result<CodeSnap, ThemeConfigError<E>>)
        requires
            forall|config: String| #[trigger] call_requires(from_config, (config,)),
        ensures
            ({
                let place = find_theme(theme_configs@, theme_file_name(theme_name@));
                if place < theme_configs@.len() {
                    exists|config: String, outcome: Result<CodeSnap, E>|
                        {
                            &&& config@ == theme_configs@[place].content@
                            &&& call_ensures(from_config, (config,), outcome)
                            &&& match outcome {
                                Ok(read) => builder is Ok && builder->Ok_0 == read,
                                Err(error) => builder matches Err(ThemeConfigError::Invalid(found))
                                    && found == error,
                            }
                        }
                } else {
                    builder is Err && builder->Err_0 is UnknownTheme
                }
            }),
    {
        let theme = match get_theme(theme_name, theme_configs) {
            Some(theme) => theme,
            None => {
                return Err(ThemeConfigError::UnknownTheme);
            },
        };
        let ghost handed = theme;
        let outcome = from_config(theme);
        assert(call_ensures(from_config, (handed,), outcome));
        match outcome {
            Ok(builder) => Ok(builder),
            Err(error) => Err(ThemeConfigError::Invalid(error)),
        }
    }
}

} // verus!
