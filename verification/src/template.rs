use crate::components::background::background_view;
use crate::components::background::Background;
use crate::components::breadcrumbs::Breadcrumbs;
use crate::components::code_block::code_block_view;
use crate::components::code_block::CodeBlock;
use crate::components::container::container_view;
use crate::components::container::render;
use crate::components::container::Container;
use crate::components::editor::code::Code;
use crate::components::editor::mac_title_bar::MacTitleBar;
use crate::components::highlight_code_block::highlight_code_block_view;
use crate::components::highlight_code_block::highlight_spans;
use crate::components::highlight_code_block::HighlightSpan;
use crate::components::highlight_code_block::HighlightCodeBlock;
use crate::components::interface::canvas::Canvas;
use crate::components::interface::component::components_view;
use crate::components::interface::component::three_children;
use crate::components::interface::component::two_children;
use crate::components::interface::component::BackgroundPaint;
use crate::components::interface::component::ComponentContext;
use crate::components::interface::component::ComponentView;
use crate::components::interface::component::StyleMap;
use crate::components::interface::render_error::GeometryError;
use crate::components::line_number::can_number;
use crate::components::line_number::line_number_view;
use crate::components::line_number::LineNumber;
use crate::components::rect::bordered_rect_view;
use crate::components::rect::single_child;
use crate::components::rect::Rect;
use crate::components::rect::ShadowConfig;
use crate::components::watermark::watermark_view;
use crate::components::watermark::Watermark;
use crate::config;
use crate::config::HighlightLine;
use crate::edges::padding::Padding;
use crate::snapshot::image_snapshot::line_number_shape;
use crate::snapshot::image_snapshot::CodeMeasures;
use crate::utils::color::parse_hex_color;
use crate::utils::color::RgbaColor;
use crate::utils::text::chars_of;
use crate::utils::text::line_bounds;
use crate::utils::text::lines;
use vstd::prelude::*;
use vstd::string::StringExecFns;

verus! {

/// The scale factor of a snapshot from the template: three pixels for each
/// logical pixel, in each direction.
pub const SCALE_FACTOR: u8 = 3;

/// The least padding below the window under which the watermark is shown.
pub const VIEW_WATERMARK_PADDING: u32 = 82;

/// The radius of the corners of the window.
pub const TEMPLATE_RADIUS: u32 = 8;

/// The padding of the window.
pub const TEMPLATE_PADDING: u32 = 16;

/// The width of the border of the window.
pub const TEMPLATE_BORDER_WIDTH: u32 = 1;

/// The radius of the blur of the shadow of the window.
pub const TEMPLATE_SHADOW_BLUR: u32 = 20;

/// How far the shadow of the window lies below the window.
pub const TEMPLATE_SHADOW_OFFSET: i64 = 21;

/// All that a snapshot from the template is made from, as an editor hands
/// it over.
pub struct SnapshotConfig {
    /// Whether the three control buttons of a window are shown.
    pub mac_window_bar: bool,
    /// The text of the watermark; none where it is empty.
    pub watermark: String,
    pub title: Option<String>,
    pub code_font_family: String,
    pub watermark_font_family: String,
    pub code: String,
    pub code_file_path: String,
    pub extension: Option<String>,
    pub save_path: Option<String>,
    pub themes_folder: String,
    pub fonts_folder: String,
    pub theme: String,
    pub bg_theme: String,
    pub bg_color: Option<String>,
    /// The path that the breadcrumbs show.
    pub file_path: String,
    pub breadcrumbs_separator: String,
    pub has_breadcrumbs: bool,
    pub start_line_number: Option<u32>,
    pub highlight_start_line_number: Option<u32>,
    pub highlight_end_line_number: Option<u32>,
    pub min_width: Option<u32>,
    pub bg_x_padding: u32,
    pub bg_y_padding: u32,
    pub bg_padding: Option<u32>,
}

/// The colour of the window of the template.
pub open spec fn template_color() -> RgbaColor {
    RgbaColor { red: 40, green: 44, blue: 52, alpha: 229 }
}

/// The colour of the border of the window of the template.
pub open spec fn template_border_color() -> RgbaColor {
    RgbaColor { red: 255, green: 255, blue: 255, alpha: 50 }
}

/// The colour of the shadow of the window of the template.
pub open spec fn template_shadow_color() -> RgbaColor {
    RgbaColor { red: 0, green: 0, blue: 0, alpha: 80 }
}

impl SnapshotConfig {
    /// The padding round the window.
    pub open spec fn background_padding(&self) -> Padding {
        match self.bg_padding {
            Some(value) => Padding::uniform(value),
            None => (Padding {
                left: self.bg_x_padding,
                right: self.bg_x_padding,
                top: self.bg_y_padding,
                bottom: self.bg_y_padding,
            }),
        }
    }

    /// The least width of the window: the one that is asked for, else none.
    pub open spec fn least_width(&self) -> u32 {
        match self.min_width {
            Some(min_width) => min_width,
            None => 0,
        }
    }

    /// Whether the watermark is shown: there is a text for it, and the
    /// padding below the window is at least `VIEW_WATERMARK_PADDING`.
    pub open spec fn shows_watermark(&self) -> bool {
        self.background_padding().bottom >= VIEW_WATERMARK_PADDING && self.watermark@.len() > 0
    }

    /// The lines that are highlighted in the given colour: the run
    /// between the two lines that are named, where both are named.
    pub open spec fn highlights(&self, color: RgbaColor) -> Seq<HighlightSpan> {
        match (self.highlight_start_line_number, self.highlight_end_line_number) {
            (Some(start), Some(end)) => seq![
                HighlightSpan { start_line_number: start, end_line_number: end, color },
            ],
            _ => Seq::empty(),
        }
    }

    /// The snapshot can be laid out: the lines can be numbered, the size
    /// of the numbers can be written down, and the least width leaves room
    /// for the border.
    pub open spec fn spec_check(&self, char_width: u32) -> Result<(), GeometryError> {
        let shape = line_number_shape(self.code@, self.start_line_number);
        if !can_number(self.code@, self.start_line_number) || char_width * shape.1 > u32::MAX
            || shape.0 * 18 > u32::MAX || self.least_width() + 2 * TEMPLATE_BORDER_WIDTH
            > u32::MAX {
            Err(GeometryError::Overflow)
        } else {
            Ok(())
        }
    }
}

/// The tree of a snapshot from the template: on the background the window,
/// bordered and with its shadow, and below it the watermark. The window
/// holds the title bar, the breadcrumbs and the block of code, in which the
/// highlights come before the line numbers and the code.
pub open spec fn template_view(
    config: &SnapshotConfig,
    highlight_color: RgbaColor,
    measures: CodeMeasures,
) -> ComponentView {
    let shape = line_number_shape(config.code@, config.start_line_number);
    container_view(
        seq![
            background_view(
                config.background_padding(),
                seq![
                    bordered_rect_view(
                        TEMPLATE_RADIUS,
                        template_color(),
                        config.least_width(),
                        Padding::uniform(TEMPLATE_PADDING),
                        TEMPLATE_BORDER_WIDTH,
                        template_border_color(),
                        Some(
                            ShadowConfig {
                                x: 0,
                                y: TEMPLATE_SHADOW_OFFSET,
                                blur: TEMPLATE_SHADOW_BLUR,
                                color: template_shadow_color(),
                            },
                        ),
                        seq![
                            (MacTitleBar { render_condition: config.mac_window_bar }).spec_component(),
                            (Breadcrumbs {
                                has_breadcrumbs: config.has_breadcrumbs,
                                path: Some(config.file_path),
                                width: measures.breadcrumbs.width,
                                height: measures.breadcrumbs.height,
                            }).spec_component(),
                            code_block_view(
                                seq![
                                    highlight_code_block_view(
                                        config.highlights(highlight_color),
                                        lines(config.code@).len() as usize,
                                        Padding::uniform(TEMPLATE_PADDING),
                                    ),
                                    line_number_view(
                                        config.start_line_number is Some,
                                        shape.0,
                                        shape.1,
                                        measures.char_width,
                                    ),
                                    (Code {
                                        width: measures.code.width,
                                        height: measures.code.height,
                                    }).spec_component(),
                                ],
                            ),
                        ],
                    ),
                    watermark_view(config.shows_watermark()),
                ],
            ),
        ],
    )
}

/// Lays out and draws a snapshot from the template, in a render of its
/// own. The highlighted lines are painted in `highlight_color`; the sizes
/// of the texts were measured before.
pub fn create_template(
    config: SnapshotConfig,
    background: BackgroundPaint,
    highlight_color: &str,
    measures: &CodeMeasures,
) -> (canvas: Result<Canvas, GeometryError>)
    requires
        parse_hex_color(highlight_color@) is Some,
    ensures
        match config.spec_check(measures.char_width) {
            Err(error) => canvas is Err && canvas->Err_0 == error,
            Ok(()) => match render(
                template_view(&config, parse_hex_color(highlight_color@).unwrap(), *measures),
                SCALE_FACTOR,
                background,
                config.background_padding(),
                StyleMap::empty(),
            ) {
                Ok(rendered) => {
                    &&& canvas is Ok
                    &&& canvas.unwrap().spec_width() == rendered.width
                    &&& canvas.unwrap().spec_height() == rendered.height
                    &&& canvas.unwrap().spec_scale_factor() == SCALE_FACTOR
                    &&& canvas.unwrap().commands() == rendered.commands
                },
                Err(error) => canvas is Err && canvas->Err_0 == error,
            },
        },
{
    let mut context = ComponentContext::new(
        SCALE_FACTOR,
        background,
        Padding::from_config(config.bg_x_padding, config.bg_y_padding, config.bg_padding),
    );
    let background_padding = Padding::from_config(
        config.bg_x_padding,
        config.bg_y_padding,
        config.bg_padding,
    );
    if !LineNumber::check_can_number(config.code.as_str(), config.start_line_number) {
        return Err(GeometryError::Overflow);
    }
    let line_number = LineNumber::new(
        config.code.as_str(),
        config.start_line_number,
        measures.char_width,
    );
    if !line_number.check_fits() {
        return Err(GeometryError::Overflow);
    }
    let min_width: u32 = match config.min_width {
        Some(min_width) => min_width,
        None => 0,
    };
    if min_width > u32::MAX - 2 * TEMPLATE_BORDER_WIDTH {
        return Err(GeometryError::Overflow);
    }
    // Below a padding of less than `VIEW_WATERMARK_PADDING` there is no room
    // for a watermark, and an empty watermark is none.

    let shows_watermark = background_padding.bottom >= VIEW_WATERMARK_PADDING
        && config.watermark.as_str().unicode_len() > 0;
    let watermark = if shows_watermark {
        Some(
            config::Watermark {
                content: config.watermark,
                font_family: config.watermark_font_family,
                color: String::from_str(config::DEFAULT_WATERMARK_COLOR),
            },
        )
    } else {
        None
    };
    let mut highlight_lines: Vec<HighlightLine> = Vec::new();
    match (config.highlight_start_line_number, config.highlight_end_line_number) {
        (Some(start), Some(end)) => {
            highlight_lines.push(HighlightLine::Range(start, end, String::from_str(highlight_color)));
        },
        _ => {},
    }
    proof {
        assert(highlight_spans(highlight_lines@) =~= config.highlights(
            parse_hex_color(highlight_color@).unwrap(),
        ));
    }
    let chars = chars_of(config.code.as_str());
    let code_line_count: usize = line_bounds(&chars).len();
    let code_block = CodeBlock::from_children(
        three_children(
            HighlightCodeBlock::from(
                highlight_lines,
                code_line_count,
                Padding::from_value(TEMPLATE_PADDING),
            ).into_component(),
            line_number.into_component(),
            Code::new(measures.code.width, measures.code.height).into_component(),
        ),
    );
    let window = match Rect::create_with_border(
        TEMPLATE_RADIUS,
        RgbaColor { red: 40, green: 44, blue: 52, alpha: 229 },
        min_width,
        Padding::from_value(TEMPLATE_PADDING),
        TEMPLATE_BORDER_WIDTH,
        RgbaColor { red: 255, green: 255, blue: 255, alpha: 50 },
        three_children(
            MacTitleBar::new(config.mac_window_bar).into_component(),
            Breadcrumbs::from(
                config.has_breadcrumbs,
                Some(config.file_path),
                measures.breadcrumbs.width,
                measures.breadcrumbs.height,
            ).into_component(),
            code_block.into_component(),
        ),
    ) {
        Ok(window) => window,
        Err(error) => {
            return Err(error);
        },
    };
    let window = window.shadow(
        0,
        TEMPLATE_SHADOW_OFFSET,
        TEMPLATE_SHADOW_BLUR,
        RgbaColor { red: 0, green: 0, blue: 0, alpha: 80 },
    );
    let root = Container::from_children(
        single_child(
            Background::new(
                background_padding,
                two_children(window.into_component(), Watermark::new(watermark).into_component()),
            ).into_component(),
        ),
    ).into_component();
    assert(root@ == template_view(
        &config,
        parse_hex_color(highlight_color@).unwrap(),
        *measures,
    ));
    root.draw_root(&mut context)
}

} // verus!
