use crate::components::background::Background;
use crate::components::background::background_view;
use crate::components::breadcrumbs::Breadcrumbs;
use crate::components::code_block::CodeBlock;
use crate::components::code_block::code_block_view;
use crate::components::command_line::command_line_header::CommandLineHeader;
use crate::components::command_line::command_line_output::CommandLineOutput;
use crate::components::container::Container;
use crate::components::container::container_view;
use crate::components::container::render;
use crate::components::editor::code::Code;
use crate::components::editor::mac_title_bar::MacTitleBar;
use crate::components::editor::title::Title;
use crate::components::highlight_code_block::HighlightCodeBlock;
use crate::components::highlight_code_block::check_highlight_lines;
use crate::components::highlight_code_block::highlight_code_block_view;
use crate::components::highlight_code_block::highlight_lines_valid;
use crate::components::highlight_code_block::highlight_spans;
use crate::components::interface::canvas::Canvas;
use crate::components::interface::component::BackgroundPaint;
use crate::components::interface::component::Component;
use crate::components::interface::component::ComponentContext;
use crate::components::interface::component::ComponentView;
use crate::components::interface::component::StyleMap;
use crate::components::interface::component::components_view;
use crate::components::interface::component::lemma_components_view;
use crate::components::interface::component::prepend_child;
use crate::components::interface::component::three_children;
use crate::components::interface::component::two_children;
use crate::components::interface::render_error::GeometryError;
use crate::components::layout::column::Column;
use crate::components::layout::column::column_view;
use crate::components::layout::row::Row;
use crate::components::layout::row::row_view;
use crate::components::line_number::LineNumber;
use crate::components::line_number::can_number;
use crate::components::line_number::line_number_view;
use crate::components::line_number::numbered_lines;
use crate::components::rect::Rect;
use crate::components::rect::ShadowConfig;
use crate::components::rect::bordered_rect_view;
use crate::components::rect::single_child;
use crate::components::watermark::watermark_view;
use crate::components::watermark::Watermark;
use crate::config::Content;
use crate::config::DEFAULT_WINDOW_MARGIN;
use crate::config::SnapshotConfig;
use crate::config;
use crate::edges::padding::Padding;
use crate::snapshot::snapshot_data::MAX_BASE64_INPUT;
use crate::snapshot::snapshot_data::SnapshotData;
use crate::snapshot::snapshot_data::SnapshotError;
use crate::snapshot::snapshot_data::base64_standard;
use crate::snapshot::snapshot_data::encode_png;
use crate::snapshot::snapshot_data::encode_png_base64;
use crate::snapshot::snapshot_data::encoded_png;
use crate::snapshot::snapshot_data::pixmap_data;
use crate::snapshot::snapshot_data::pixmap_height;
use crate::snapshot::snapshot_data::pixmap_width;
use crate::utils::color::RgbaColor;
use crate::utils::color::parse_hex_color;
use crate::utils::number::decimal;
use crate::utils::text::chars_of;
use crate::utils::text::line_bounds;
use crate::utils::text::lines;
use tiny_skia::Pixmap;
use vstd::prelude::*;
use vstd::string::StringExecFns;

verus! {

/// The least width of the window.
pub const DEFAULT_WINDOW_MIN_WIDTH: u32 = 350;

/// The radius of the corners of the window.
pub const WINDOW_RADIUS: u32 = 12;

/// How far the shadow of the window lies below the window.
pub const WINDOW_SHADOW_OFFSET: i64 = 21;

/// The padding of the window on the sides of which nothing is said.
pub const WINDOW_PADDING: u32 = 14;

/// The padding above the content of a window without a title bar.
pub const WINDOW_PADDING_TOP: u32 = 12;

/// What of a configuration the frame of a snapshot is made from.
pub struct Frame {
    pub mac_window_bar: bool,
    pub title: Option<String>,
    pub watermark: Option<config::Watermark>,
    pub background_padding: Padding,
    pub window_padding: Padding,
    pub editor_background_color: RgbaColor,
    pub border_width: u32,
    pub border_color: RgbaColor,
    pub shadow_radius: u32,
    pub shadow_color: RgbaColor,
}

/// The colours of a window can be read.
pub open spec fn window_colors_valid(window: &config::Window) -> bool {
    &&& parse_hex_color(window.border.color@) is Some
    &&& parse_hex_color(window.shadow.color@) is Some
}

/// The padding of the window: `WINDOW_PADDING` on every side, but where
/// there is no title bar, `WINDOW_PADDING_TOP` above.
pub open spec fn window_padding(mac_window_bar: bool) -> Padding {
    Padding {
        top: if mac_window_bar {
            WINDOW_PADDING
        } else {
            WINDOW_PADDING_TOP
        },
        ..Padding::uniform(WINDOW_PADDING)
    }
}

impl Frame {
    /// The frame of a snapshot with the given window, title and watermark,
    /// round a window whose content is painted on `editor_background_color`.
    /// The watermark is shown only where the margin below the window is at
    /// least `DEFAULT_WINDOW_MARGIN`.
    pub open spec fn spec_from_config(
        window: &config::Window,
        title: Option<String>,
        watermark: Option<config::Watermark>,
        editor_background_color: RgbaColor,
    ) -> Frame {
        Frame {
            mac_window_bar: window.mac_window_bar,
            title,
            watermark: if window.margin.y >= DEFAULT_WINDOW_MARGIN {
                watermark
            } else {
                None
            },
            background_padding: window.margin.spec_padding(),
            window_padding: window_padding(window.mac_window_bar),
            editor_background_color,
            border_width: window.border.width,
            border_color: parse_hex_color(window.border.color@).unwrap(),
            shadow_radius: window.shadow.radius,
            shadow_color: parse_hex_color(window.shadow.color@).unwrap(),
        }
    }

    /// Whether the colours of a window can be read.
    pub fn check_window_colors(window: &config::Window) -> (valid: bool)
        ensures
            valid == window_colors_valid(window),
    {
        RgbaColor::from_hex(window.border.color.as_str()).is_some() && RgbaColor::from_hex(
            window.shadow.color.as_str(),
        ).is_some()
    }

    pub fn from_config(
        window: &config::Window,
        title: Option<String>,
        watermark: Option<config::Watermark>,
        editor_background_color: RgbaColor,
    ) -> (frame: Frame)
        requires
            window_colors_valid(window),
        ensures
            frame == Frame::spec_from_config(window, title, watermark, editor_background_color),
    {
        let background_padding = window.margin.padding();
        // Below a margin of less than the default there is no room for a
        // watermark.
        let watermark = if background_padding.bottom >= DEFAULT_WINDOW_MARGIN {
            watermark
        } else {
            None
        };
        Frame {
            mac_window_bar: window.mac_window_bar,
            title,
            watermark,
            background_padding,
            window_padding: Padding {
                left: WINDOW_PADDING,
                right: WINDOW_PADDING,
                bottom: WINDOW_PADDING,
                top: if window.mac_window_bar {
                    WINDOW_PADDING
                } else {
                    WINDOW_PADDING_TOP
                },
            },
            editor_background_color,
            border_width: window.border.width,
            border_color: RgbaColor::from_hex(window.border.color.as_str()).unwrap(),
            shadow_radius: window.shadow.radius,
            shadow_color: RgbaColor::from_hex(window.shadow.color.as_str()).unwrap(),
        }
    }

    /// The frame can be built: the title is not too wide, the border is
    /// not wider than half the radius of the window.
    pub open spec fn spec_check(&self) -> Result<(), GeometryError> {
        if (Title { content: self.title }).spec_width() > u32::MAX {
            Err(GeometryError::Overflow)
        } else if 2 * self.border_width > WINDOW_RADIUS {
            Err(GeometryError::Degenerate)
        } else {
            Ok(())
        }
    }

    /// The tree of a snapshot with the given content: on the background
    /// the window, bordered and with its shadow, and below it the watermark.
    /// The window holds the row of title bar and title, and below it the
    /// content.
    pub open spec fn spec_tree(&self, render_content: Seq<ComponentView>) -> ComponentView {
        container_view(
            seq![
                background_view(
                    self.background_padding,
                    seq![
                        bordered_rect_view(
                            WINDOW_RADIUS,
                            self.editor_background_color,
                            DEFAULT_WINDOW_MIN_WIDTH,
                            self.window_padding,
                            self.border_width,
                            self.border_color,
                            Some(
                                ShadowConfig {
                                    x: 0,
                                    y: WINDOW_SHADOW_OFFSET,
                                    blur: self.shadow_radius,
                                    color: self.shadow_color,
                                },
                            ),
                            seq![
                                row_view(
                                    seq![
                                        (MacTitleBar {
                                            render_condition: self.mac_window_bar,
                                        }).spec_component(),
                                        (Title { content: self.title }).spec_component(),
                                    ],
                                ),
                            ] + render_content,
                        ),
                        watermark_view(self.watermark is Some),
                    ],
                ),
            ],
        )
    }

    /// Builds the tree of a snapshot with the given content.
    pub fn tree(self, render_content: Vec<Component>) -> (tree: Result<Component, GeometryError>)
        ensures
            match self.spec_check() {
                Ok(()) => tree is Ok && tree.unwrap()@ == self.spec_tree(
                    components_view(render_content@),
                ),
                Err(error) => tree is Err && tree->Err_0 == error,
            },
    {
        let title = Title::from_content(self.title);
        if title.width().is_none() {
            return Err(GeometryError::Overflow);
        }
        let title_row = Row::from_children(
            two_children(MacTitleBar::new(self.mac_window_bar).into_component(), title.into_component()),
        );
        let parsed_render_content = prepend_child(title_row.into_component(), render_content);
        let window = match Rect::create_with_border(
            WINDOW_RADIUS,
            self.editor_background_color,
            DEFAULT_WINDOW_MIN_WIDTH,
            self.window_padding,
            self.border_width,
            self.border_color,
            parsed_render_content,
        ) {
            Ok(window) => window,
            Err(error) => {
                return Err(error);
            },
        };
        let window = window.shadow(0, WINDOW_SHADOW_OFFSET, self.shadow_radius, self.shadow_color);
        let background = Background::new(
            self.background_padding,
            two_children(window.into_component(), Watermark::new(self.watermark).into_component()),
        );
        Ok(Container::from_children(single_child(background.into_component())).into_component())
    }
}

/// The size that the font renderer measured for a text.
#[derive(Clone, Copy, Debug, PartialEq, Eq, Structural)]
pub struct TextSize {
    pub width: u32,
    pub height: u32,
}

/// What was measured for the texts of a snapshot of code.
#[derive(Clone, Copy, Debug, PartialEq, Eq, Structural)]
pub struct CodeMeasures {
    /// The size of the path above the code.
    pub breadcrumbs: TextSize,
    /// The size of the code.
    pub code: TextSize,
    /// The width of one digit of a line number.
    pub char_width: u32,
}

/// What was measured for one command and its output.
#[derive(Clone, Copy, Debug, PartialEq, Eq, Structural)]
pub struct CommandMeasures {
    /// The size of the prompt, a space and the command.
    pub header: TextSize,
    /// The size of the output.
    pub output: TextSize,
}

/// How many line numbers a text gets, and how many digits the largest of
/// them has: none where no first number is given.
pub open spec fn line_number_shape(content: Seq<char>, start_line_number: Option<u32>) -> (
    nat,
    nat,
) {
    match start_line_number {
        None => (0, 0),
        Some(start) => (
            numbered_lines(content),
            decimal((start + numbered_lines(content) - 1) as nat).len(),
        ),
    }
}

/// The content of a snapshot of code can be laid out: its lines can be
/// numbered, and the size of the numbers can be written down.
pub open spec fn code_content_check(
    content: Seq<char>,
    start_line_number: Option<u32>,
    char_width: u32,
) -> Result<(), GeometryError> {
    let shape = line_number_shape(content, start_line_number);
    if !can_number(content, start_line_number) || char_width * shape.1 > u32::MAX || shape.0
        * 18 > u32::MAX {
        Err(GeometryError::Overflow)
    } else {
        Ok(())
    }
}

/// The content of a snapshot of code: the path of the file, and below it
/// the block with the highlights, the line numbers and the code, in this
/// order, so that the highlights are painted before the code.
pub open spec fn code_content_view(
    window_padding: Padding,
    code_content: config::Code,
    has_breadcrumbs: bool,
    measures: CodeMeasures,
) -> Seq<ComponentView> {
    let shape = line_number_shape(code_content.content@, code_content.start_line_number);
    seq![
        (Breadcrumbs {
            has_breadcrumbs,
            path: code_content.file_path,
            width: measures.breadcrumbs.width,
            height: measures.breadcrumbs.height,
        }).spec_component(),
        code_block_view(
            seq![
                highlight_code_block_view(
                    highlight_spans(code_content.highlight_lines@),
                    lines(code_content.content@).len() as usize,
                    window_padding,
                ),
                line_number_view(
                    code_content.start_line_number is Some,
                    shape.0,
                    shape.1,
                    measures.char_width,
                ),
                (Code { width: measures.code.width, height: measures.code.height }).spec_component(),
            ],
        ),
    ]
}

/// The content of a snapshot of commands: for each command a column of
/// the command and, below it, its output.
pub open spec fn command_line_view(measures: Seq<CommandMeasures>) -> Seq<ComponentView> {
    Seq::new(
        measures.len(),
        |i: int|
            column_view(
                seq![
                    (CommandLineHeader {
                        index: i as usize,
                        width: measures[i].header.width,
                        height: measures[i].header.height,
                    }).spec_component(),
                    (CommandLineOutput {
                        index: i as usize,
                        width: measures[i].output.width,
                        height: measures[i].output.height,
                    }).spec_component(),
                ],
            ),
    )
}

/// Builds the content of a snapshot of code.
pub fn draw_code_content(
    window_padding: &Padding,
    code_content: config::Code,
    has_breadcrumbs: bool,
    measures: &CodeMeasures,
) -> (view: Result<Vec<Component>, GeometryError>)
    requires
        highlight_lines_valid(code_content.highlight_lines@),
    ensures
        match code_content_check(
            code_content.content@,
            code_content.start_line_number,
            measures.char_width,
        ) {
            Ok(()) => view is Ok && components_view(view.unwrap()@) == code_content_view(
                *window_padding,
                code_content,
                has_breadcrumbs,
                *measures,
            ),
            Err(error) => view is Err && view->Err_0 == error,
        },
{
    let chars = chars_of(code_content.content.as_str());
    let code_line_count: usize = line_bounds(&chars).len();
    if !LineNumber::check_can_number(code_content.content.as_str(), code_content.start_line_number) {
        return Err(GeometryError::Overflow);
    }
    let line_number = LineNumber::new(
        code_content.content.as_str(),
        code_content.start_line_number,
        measures.char_width,
    );
    if !line_number.check_fits() {
        return Err(GeometryError::Overflow);
    }
    let breadcrumbs = Breadcrumbs::from(
        has_breadcrumbs,
        code_content.file_path,
        measures.breadcrumbs.width,
        measures.breadcrumbs.height,
    );
    let highlight = HighlightCodeBlock::from(
        code_content.highlight_lines,
        code_line_count,
        *window_padding,
    );
    let code_block = CodeBlock::from_children(
        three_children(
            highlight.into_component(),
            line_number.into_component(),
            Code::new(measures.code.width, measures.code.height).into_component(),
        ),
    );
    Ok(two_children(breadcrumbs.into_component(), code_block.into_component()))
}

/// Builds the content of a snapshot of commands, one entry for each of the
/// given measures.
pub fn command_line_content(measures: &Vec<CommandMeasures>) -> (view: Vec<Component>)
    ensures
        components_view(view@) == command_line_view(measures@),
{
    let mut view: Vec<Component> = Vec::new();
    let mut index: usize = 0;
    while index < measures.len()
        invariant
            index <= measures@.len(),
            view@.len() == index,
            forall|i: int|
                0 <= i < index ==> (#[trigger] view@[i])@ == command_line_view(measures@)[i],
        decreases measures@.len() - index,
    {
        let entry = measures[index];
        let column = Column::from_children(
            two_children(
                CommandLineHeader::from(
                    index,
                    entry.header.width,
                    entry.header.height,
                ).into_component(),
                CommandLineOutput::from(
                    index,
                    entry.output.width,
                    entry.output.height,
                ).into_component(),
            ),
        );
        view.push(column.into_component());
        index = index + 1;
    }
    proof {
        lemma_components_view(view@);
        assert(components_view(view@) =~= command_line_view(measures@));
    }
    view
}

/// The content of a snapshot can be laid out.
pub open spec fn content_check(content: Content, code_measures: CodeMeasures) -> Result<
    (),
    GeometryError,
> {
    match content {
        Content::Code(code) => code_content_check(
            code.content@,
            code.start_line_number,
            code_measures.char_width,
        ),
        Content::CommandOutput(_) => Ok(()),
    }
}

/// The content of a snapshot.
pub open spec fn content_view(
    content: Content,
    mac_window_bar: bool,
    has_breadcrumbs: bool,
    code_measures: CodeMeasures,
    command_measures: Seq<CommandMeasures>,
) -> Seq<ComponentView> {
    match content {
        Content::Code(code) => code_content_view(
            window_padding(mac_window_bar),
            code,
            has_breadcrumbs,
            code_measures,
        ),
        Content::CommandOutput(_) => command_line_view(command_measures),
    }
}

/// The highlights of the code of a snapshot can be painted.
pub open spec fn content_colors_valid(content: Content) -> bool {
    match content {
        Content::Code(code) => highlight_lines_valid(code.highlight_lines@),
        Content::CommandOutput(_) => true,
    }
}

/// Whether the highlights of the code of a snapshot can be painted.
pub fn check_content_colors(content: &Content) -> (valid: bool)
    ensures
        valid == content_colors_valid(*content),
{
    match content {
        Content::Code(code) => check_highlight_lines(&code.highlight_lines),
        Content::CommandOutput(_) => true,
    }
}

/// The snapshot of a configuration: what is painted, and on a raster of
/// which size.
pub open spec fn snapshot(
    config: SnapshotConfig,
    editor_background_color: RgbaColor,
    code_measures: CodeMeasures,
    command_measures: Seq<CommandMeasures>,
) -> Result<crate::components::container::Rendered, GeometryError> {
    let frame = Frame::spec_from_config(
        &config.window,
        config.title,
        config.watermark,
        editor_background_color,
    );
    match content_check(config.content, code_measures) {
        Err(error) => Err(error),
        Ok(()) => match frame.spec_check() {
            Err(error) => Err(error),
            Ok(()) => render(
                frame.spec_tree(
                    content_view(
                        config.content,
                        config.window.mac_window_bar,
                        config.code_config.breadcrumbs.enable,
                        code_measures,
                        command_measures,
                    ),
                ),
                config.scale_factor,
                config.background.spec_paint(),
                frame.background_padding,
                StyleMap::empty(),
            ),
        },
    }
}

/// A snapshot as a picture: the raster that the commands of a canvas were
/// carried out on.
pub struct ImageSnapshot {
    pixmap: Pixmap,
}

/// The text before the picture in a page that shows it.
pub const HTML_PREFIX: &'static str = "<img src=\"data:image/png;base64,";

/// The text after the picture in a page that shows it.
pub const HTML_SUFFIX: &'static str = "\" />";

/// The text before the picture in a drawing that shows it.
pub const SVG_PREFIX: &'static str =
    "<svg xmlns=\"http://www.w3.org/2000/svg\" xmlns:xlink=\"http://www.w3.org/1999/xlink\"><image href=\"data:image/png;base64,";

/// The text after the picture in a drawing that shows it.
pub const SVG_SUFFIX: &'static str = "\"/></svg>";

/// The picture of a raster in base64: its PNG encoding, encoded once more.
/// There is none where the raster cannot be encoded, or where the PNG is
/// too long to be encoded once more.
pub open spec fn base64_of(pixmap: Pixmap) -> Result<Seq<char>, SnapshotError> {
    match encoded_png(pixmap_width(pixmap), pixmap_height(pixmap), pixmap_data(pixmap)) {
        None => Err(SnapshotError::EncodingFailed),
        Some(png) => if png.len() > MAX_BASE64_INPUT {
            Err(SnapshotError::TooLarge)
        } else {
            Ok(base64_standard(png))
        },
    }
}

impl ImageSnapshot {
    /// The raster.
    pub closed spec fn pixmap(&self) -> Pixmap {
        self.pixmap
    }

    /// The snapshot with the given raster.
    pub fn new(pixmap: Pixmap) -> (snapshot: ImageSnapshot)
        ensures
            snapshot.pixmap() == pixmap,
    {
        ImageSnapshot { pixmap }
    }

    /// The pixels of the raster as they are.
    pub fn raw_data(&self) -> (data: Result<SnapshotData, SnapshotError>)
        ensures
            data is Ok,
            data.unwrap().is_image_of(self.pixmap(), pixmap_data(self.pixmap())),
    {
        SnapshotData::from_pixmap(&self.pixmap, false)
    }

    /// The raster as a PNG image.
    pub fn png_data(&self) -> (data: Result<SnapshotData, SnapshotError>)
        ensures
            match encoded_png(
                pixmap_width(self.pixmap()),
                pixmap_height(self.pixmap()),
                pixmap_data(self.pixmap()),
            ) {
                Some(png) => data is Ok && data.unwrap().is_image_of(self.pixmap(), png),
                None => data is Err && data->Err_0 == SnapshotError::EncodingFailed,
            },
    {
        SnapshotData::from_pixmap(&self.pixmap, true)
    }

    /// The raster as a drawing that shows the PNG image.
    pub fn svg_data(&self) -> (data: Result<SnapshotData, SnapshotError>)
        ensures
            match base64_of(self.pixmap()) {
                Ok(base64) => data is Ok && data.unwrap().is_text(
                    SVG_PREFIX@ + base64 + SVG_SUFFIX@,
                ),
                Err(error) => data is Err && data->Err_0 == error,
            },
    {
        match self.to_svg() {
            Ok(text) => Ok(SnapshotData::Text(text)),
            Err(error) => Err(error),
        }
    }

    /// The raster as a page that shows the PNG image.
    pub fn html_data(&self) -> (data: Result<SnapshotData, SnapshotError>)
        ensures
            match base64_of(self.pixmap()) {
                Ok(base64) => data is Ok && data.unwrap().is_text(
                    HTML_PREFIX@ + base64 + HTML_SUFFIX@,
                ),
                Err(error) => data is Err && data->Err_0 == error,
            },
    {
        match self.to_html() {
            Ok(text) => Ok(SnapshotData::Text(text)),
            Err(error) => Err(error),
        }
    }

    pub fn to_html(&self) -> (html: Result<String, SnapshotError>)
        ensures
            match base64_of(self.pixmap()) {
                Ok(base64) => html is Ok && html.unwrap()@ == HTML_PREFIX@ + base64 + HTML_SUFFIX@,
                Err(error) => html is Err && html->Err_0 == error,
            },
    {
        match self.to_base64() {
            Ok(base64) => Ok(
                String::from_str(HTML_PREFIX).concat(base64.as_str()).concat(HTML_SUFFIX),
            ),
            Err(error) => Err(error),
        }
    }

    /// The PNG image of the raster in base64.
    pub fn to_base64(&self) -> (base64: Result<String, SnapshotError>)
        ensures
            match base64_of(self.pixmap()) {
                Ok(expected) => base64 is Ok && base64.unwrap()@ == expected,
                Err(error) => base64 is Err && base64->Err_0 == error,
            },
    {
        let png_data = match encode_png(&self.pixmap) {
            Some(png_data) => png_data,
            None => {
                return Err(SnapshotError::EncodingFailed);
            },
        };
        encode_png_base64(&png_data)
    }

    /// The raster as a drawing. The drawing holds the PNG image in base64:
    /// it is no drawing of lines and shapes, and about a third longer than
    /// the image.
    pub fn to_svg(&self) -> (svg: Result<String, SnapshotError>)
        ensures
            match base64_of(self.pixmap()) {
                Ok(base64) => svg is Ok && svg.unwrap()@ == SVG_PREFIX@ + base64 + SVG_SUFFIX@,
                Err(error) => svg is Err && svg->Err_0 == error,
            },
    {
        match self.to_base64() {
            Ok(base64) => Ok(
                String::from_str(SVG_PREFIX).concat(base64.as_str()).concat(SVG_SUFFIX),
            ),
            Err(error) => Err(error),
        }
    }

    /// Draws the frame of a snapshot round the given content, in a render
    /// of its own.
    pub fn create_drawer_with_frame(
        frame: Frame,
        scale_factor: u8,
        background: BackgroundPaint,
        render_content: Vec<Component>,
    ) -> (canvas: Result<Canvas, GeometryError>)
        ensures
            match frame.spec_check() {
                Err(error) => canvas is Err && canvas->Err_0 == error,
                Ok(()) => match render(
                    frame.spec_tree(components_view(render_content@)),
                    scale_factor,
                    background,
                    frame.background_padding,
                    StyleMap::empty(),
                ) {
                    Ok(rendered) => {
                        &&& canvas is Ok
                        &&& canvas.unwrap().spec_width() == rendered.width
                        &&& canvas.unwrap().spec_height() == rendered.height
                        &&& canvas.unwrap().spec_scale_factor() == scale_factor
                        &&& canvas.unwrap().commands() == rendered.commands
                    },
                    Err(error) => canvas is Err && canvas->Err_0 == error,
                },
            },
    {
        let mut context = ComponentContext::new(scale_factor, background, frame.background_padding);
        let tree = match frame.tree(render_content) {
            Ok(tree) => tree,
            Err(error) => {
                return Err(error);
            },
        };
        tree.draw_root(&mut context)
    }

    /// Lays out and draws the snapshot of a configuration. The texts were
    /// measured before: `code_measures` holds for a snapshot of code,
    /// `command_measures` for a snapshot of commands, with one entry for each
    /// command.
    pub fn from_config(
        config: SnapshotConfig,
        editor_background_color: RgbaColor,
        code_measures: &CodeMeasures,
        command_measures: &Vec<CommandMeasures>,
    ) -> (snapshot: Result<Canvas, GeometryError>)
        requires
            window_colors_valid(&config.window),
            config.background.is_valid(),
            content_colors_valid(config.content),
        ensures
            match self::snapshot(
                config,
                editor_background_color,
                *code_measures,
                command_measures@,
            ) {
                Ok(rendered) => {
                    &&& snapshot is Ok
                    &&& snapshot.unwrap().spec_width() == rendered.width
                    &&& snapshot.unwrap().spec_height() == rendered.height
                    &&& snapshot.unwrap().spec_scale_factor() == config.scale_factor
                    &&& snapshot.unwrap().commands() == rendered.commands
                },
                Err(error) => snapshot is Err && snapshot->Err_0 == error,
            },
    {
        let background = config.background.paint();
        let frame = Frame::from_config(
            &config.window,
            config.title,
            config.watermark,
            editor_background_color,
        );
        let render_content = match config.content {
            Content::Code(code) => match draw_code_content(
                &frame.window_padding,
                code,
                config.code_config.breadcrumbs.enable,
                code_measures,
            ) {
                Ok(render_content) => render_content,
                Err(error) => {
                    return Err(error);
                },
            },
            Content::CommandOutput(_) => command_line_content(command_measures),
        };
        ImageSnapshot::create_drawer_with_frame(
            frame,
            config.scale_factor,
            background,
            render_content,
        )
    }
}

} // verus!
