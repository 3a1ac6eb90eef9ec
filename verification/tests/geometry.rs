use codesnap::components::editor::mac_title_bar::draw_control_buttons;
use codesnap::components::editor::mac_title_bar::MacTitleBar;
use codesnap::components::highlight_code_block::draw_highlight_line;
use codesnap::components::highlight_code_block::draw_highlight_lines;
use codesnap::components::highlight_code_block::HighlightCodeBlock;
use codesnap::components::highlight_code_block::HighlightSpan;
use codesnap::components::highlight_code_block::CODE_LINE_HEIGHT;
use codesnap::components::interface::canvas::Canvas;
use codesnap::components::interface::canvas::Circle;
use codesnap::components::interface::canvas::DrawCommand;
use codesnap::components::interface::canvas::Rectangle;
use codesnap::components::interface::canvas::RoundedRectangle;
use codesnap::components::interface::canvas::Shadow;
use codesnap::components::interface::component::BackgroundPaint;
use codesnap::components::interface::component::Component;
use codesnap::components::interface::component::ComponentContext;
use codesnap::components::interface::component::ComponentName;
use codesnap::components::interface::component::Painter;
use codesnap::components::interface::component::RenderParams;
use codesnap::components::interface::render_error::GeometryError;
use codesnap::components::interface::style::ComponentAlign;
use codesnap::components::interface::style::ComponentStyle;
use codesnap::components::interface::style::Size;
use codesnap::components::interface::style::Style;
use codesnap::components::rect::draw_rect;
use codesnap::components::rect::rounded_rectangle;
use codesnap::components::rect::shadow_geometry;
use codesnap::components::rect::Rect;
use codesnap::components::rect::ShadowConfig;
use codesnap::config::HighlightLine;
use codesnap::edges::margin::Margin;
use codesnap::edges::padding::Padding;
use codesnap::utils::color::RgbaColor;

const RED: RgbaColor = RgbaColor { red: 255, green: 0, blue: 0, alpha: 255 };
const GREY: RgbaColor = RgbaColor { red: 40, green: 44, blue: 52, alpha: 229 };
const BORDER: RgbaColor = RgbaColor { red: 255, green: 255, blue: 255, alpha: 0x30 };

fn style(width: u32, height: u32) -> ComponentStyle {
    ComponentStyle {
        width,
        height,
        min_width: 0,
        align: ComponentAlign::Row,
        padding: Padding::from_value(0),
        margin: Margin::from_value(0),
    }
}

fn commands(canvas: &Canvas) -> Vec<DrawCommand> {
    (0..canvas.len()).map(|index| canvas.command(index).unwrap()).collect()
}

fn rect_parts(component: &Component) -> (u32, RgbaColor, Option<ShadowConfig>) {
    match &component.painter {
        Painter::Rect { radius, color, shadow } => (*radius, *color, *shadow),
        _ => panic!("not a rectangle"),
    }
}

#[test]
fn single_line_highlight_is_one_line_high() {
    for line in 1..=10u32 {
        let rectangle = draw_highlight_line(0, 0, 200, 0, line, line, 10, 18).unwrap();
        assert_eq!(rectangle.y, (line as i64 - 1) * 18);
        assert_eq!(rectangle.height, 18);
        assert_eq!(rectangle.width, 200);
    }
}

#[test]
fn highlight_of_lines_three_to_five() {
    let rectangle = draw_highlight_line(0, 0, 200, 0, 3, 5, 10, 18).unwrap();
    assert_eq!(rectangle, Rectangle { x: 0, y: 36, width: 200, height: 54 });
    assert_eq!(rectangle.y + rectangle.height as i64, 90);
}

#[test]
fn highlight_ends_may_come_in_either_order() {
    assert_eq!(
        draw_highlight_line(7, 9, 200, 3, 5, 3, 10, 18),
        draw_highlight_line(7, 9, 200, 3, 3, 5, 10, 18)
    );
    assert_eq!(
        draw_highlight_line(7, 9, 200, 3, 5, 3, 10, 18).unwrap(),
        Rectangle { x: 4, y: 45, width: 200, height: 54 }
    );
}

#[test]
fn highlight_ends_at_the_last_line() {
    let rectangle = draw_highlight_line(0, 0, 200, 0, 8, 30, 10, 18).unwrap();
    assert_eq!(rectangle, Rectangle { x: 0, y: 126, width: 200, height: 54 });
}

#[test]
fn highlight_reaches_the_edge_of_the_card() {
    let rectangle = draw_highlight_line(98, 120, 350, 14, 1, 1, 2, CODE_LINE_HEIGHT).unwrap();
    assert_eq!(rectangle, Rectangle { x: 84, y: 120, width: 350, height: 18 });
}

#[test]
fn highlight_outside_the_code_has_no_rectangle() {
    assert_eq!(draw_highlight_line(0, 0, 200, 0, 0, 1, 10, 18), Err(GeometryError::Degenerate));
    assert_eq!(draw_highlight_line(0, 0, 200, 0, 11, 12, 10, 18), Err(GeometryError::Degenerate));
    assert_eq!(draw_highlight_line(0, 0, 200, 0, 1, 1, 0, 18), Err(GeometryError::Degenerate));
    assert_eq!(
        draw_highlight_line(0, i64::MAX, 200, 0, 2, 2, 10, 18),
        Err(GeometryError::Overflow)
    );
    assert_eq!(
        draw_highlight_line(i64::MIN, 0, 200, 1, 2, 2, 10, 18),
        Err(GeometryError::Overflow)
    );
    assert_eq!(
        draw_highlight_line(0, 0, 200, 0, 1, u32::MAX, usize::MAX, 18),
        Err(GeometryError::Overflow)
    );
}

#[test]
fn highlights_are_issued_in_their_order() {
    let mut canvas = Canvas::new(10, 10, 1).unwrap();
    let spans = vec![
        HighlightSpan { start_line_number: 2, end_line_number: 2, color: RED },
        HighlightSpan { start_line_number: 1, end_line_number: 3, color: GREY },
    ];
    draw_highlight_lines(&mut canvas, &spans, 10, 20, 100, 4, 5).unwrap();
    assert_eq!(
        commands(&canvas),
        vec![
            DrawCommand::FillRectangle {
                rectangle: Rectangle { x: 6, y: 38, width: 100, height: 18 },
                color: RED,
            },
            DrawCommand::FillRectangle {
                rectangle: Rectangle { x: 6, y: 20, width: 100, height: 54 },
                color: GREY,
            },
        ]
    );
    let bad = vec![HighlightSpan { start_line_number: 9, end_line_number: 9, color: RED }];
    assert_eq!(
        draw_highlight_lines(&mut canvas, &bad, 10, 20, 100, 4, 5),
        Err(GeometryError::Degenerate)
    );
}

#[test]
fn highlight_block_is_there_only_with_highlights() {
    let empty = HighlightCodeBlock::from(vec![], 3, Padding::from_value(14));
    assert!(empty.check_valid());
    assert!(!empty.into_component().render_condition);
    let block = HighlightCodeBlock::from(
        vec![
            HighlightLine::Single(2, "#ff0000".to_string()),
            HighlightLine::Range(1, 3, "#282c34e5".to_string()),
        ],
        3,
        Padding::from_value(14),
    );
    assert!(block.check_valid());
    let component = block.into_component();
    assert!(component.render_condition);
    assert_eq!(component.name, ComponentName::HighlightCodeBlock);
    match component.painter {
        Painter::HighlightCodeBlock { highlight_lines, editor_padding, code_line_count } => {
            assert_eq!(
                highlight_lines,
                vec![
                    HighlightSpan { start_line_number: 2, end_line_number: 2, color: RED },
                    HighlightSpan { start_line_number: 1, end_line_number: 3, color: GREY },
                ]
            );
            assert_eq!(editor_padding, Padding::from_value(14));
            assert_eq!(code_line_count, 3);
        }
        _ => panic!("not a highlight block"),
    }
    let invalid = HighlightCodeBlock::from(
        vec![HighlightLine::Single(2, "red".to_string())],
        3,
        Padding::from_value(14),
    );
    assert!(!invalid.check_valid());
}

#[test]
fn bordered_rect_nests_three_layers() {
    let rect = Rect::create_with_border(12, GREY, 350, Padding::from_value(14), 1, BORDER, vec![])
        .unwrap();
    assert_eq!((rect.radius, rect.min_width), (12, 352));
    // The outer layer and the middle layer have the colour of the border,
    // the inner layer that of the content.
    assert_eq!(rect.color, BORDER);
    assert_eq!(rect.padding, Padding::from_value(1));
    assert_eq!(rect.component_name, ComponentName::RectUnderLayer);
    assert_eq!(rect.children.len(), 1);
    let border = &rect.children[0];
    assert_eq!(border.name, ComponentName::RectBorderLayer);
    assert_eq!(rect_parts(border), (11, BORDER, None));
    assert_eq!(border.style.min_width, 351);
    assert_eq!(border.style.padding, Padding::from_value(1));
    assert_eq!(border.children.len(), 1);
    let inner = &border.children[0];
    assert_eq!(inner.name, ComponentName::RectInnerLayer);
    assert_eq!(rect_parts(inner), (10, GREY, None));
    assert_eq!(inner.style.min_width, 350);
    assert_eq!(inner.style.padding, Padding::from_value(14));
    assert_eq!(inner.style.align, ComponentAlign::Column);
    assert!(inner.children.is_empty());
}

#[test]
fn bordered_rect_resolves_to_nested_widths() {
    let rect = Rect::create_with_border(12, GREY, 350, Padding::from_value(14), 1, BORDER, vec![])
        .unwrap()
        .into_component();
    let mut context = ComponentContext::new(1, BackgroundPaint::Solid(RED), Padding::from_value(0));
    let style = rect.parsed_style(None, &mut context).unwrap();
    assert_eq!((style.width, style.height), (354, 32));
    assert_eq!(context.style_map.get(ComponentName::RectBorderLayer).unwrap().width, 352);
    assert_eq!(context.style_map.get(ComponentName::RectInnerLayer).unwrap().width, 350);
}

#[test]
fn border_must_fit_the_radius() {
    assert_eq!(
        Rect::create_with_border(12, GREY, 350, Padding::from_value(14), 7, BORDER, vec![]).err(),
        Some(GeometryError::Degenerate)
    );
    assert_eq!(
        Rect::create_with_border(12, GREY, u32::MAX - 1, Padding::from_value(14), 1, BORDER, vec![])
            .err(),
        Some(GeometryError::Overflow)
    );
    assert!(
        Rect::create_with_border(12, GREY, 350, Padding::from_value(14), 6, BORDER, vec![]).is_ok()
    );
}

#[test]
fn rect_without_least_width_or_shadow() {
    let rect = Rect::new(3, RED, None, Padding::from_value(2), ComponentName::Stub, vec![]);
    assert_eq!(rect.min_width, 0);
    assert!(rect.shadow.is_none());
    let shadowed = rect.shadow(1, 2, 3, GREY);
    assert_eq!(shadowed.shadow, Some(ShadowConfig { x: 1, y: 2, blur: 3, color: GREY }));
    let component = shadowed.into_component();
    assert_eq!(
        rect_parts(&component),
        (3, RED, Some(ShadowConfig { x: 1, y: 2, blur: 3, color: GREY }))
    );
    assert_eq!(component.style.width, Size::Dynamic);
    assert_eq!(component.style, Style::default().align(ComponentAlign::Column).padding(Padding::from_value(2)));
}

#[test]
fn rounded_rectangle_takes_the_resolved_size() {
    let rounded = rounded_rectangle(&RenderParams { x: 82, y: 83 }, &style(354, 90), 12).unwrap();
    assert_eq!(rounded, RoundedRectangle { x: 82, y: 83, width: 354, height: 90, radius: 12 });
    assert_eq!(
        rounded_rectangle(&RenderParams { x: 0, y: 0 }, &style(23, 90), 12),
        Err(GeometryError::Degenerate)
    );
    assert_eq!(
        rounded_rectangle(&RenderParams { x: 0, y: 0 }, &style(90, 23), 12),
        Err(GeometryError::Degenerate)
    );
    assert_eq!(
        rounded_rectangle(&RenderParams { x: i64::MAX, y: 0 }, &style(90, 90), 12),
        Err(GeometryError::Overflow)
    );
    assert!(rounded_rectangle(&RenderParams { x: 0, y: 0 }, &style(24, 24), 12).is_ok());
}

#[test]
fn rounded_rectangle_outline_is_a_cross_with_four_circles() {
    let rounded = RoundedRectangle { x: 10, y: 20, width: 100, height: 50, radius: 5 };
    let points: Vec<(i64, i64)> =
        rounded.outline().iter().map(|point| (point.x, point.y)).collect();
    assert_eq!(
        points,
        vec![
            (15, 20),
            (105, 20),
            (105, 25),
            (110, 25),
            (110, 65),
            (105, 65),
            (105, 70),
            (15, 70),
            (15, 65),
            (10, 65),
            (10, 25),
            (15, 25),
            (15, 20),
            (105, 20),
        ]
    );
    let corners: Vec<(i64, i64)> =
        rounded.corners().iter().map(|point| (point.x, point.y)).collect();
    assert_eq!(corners, vec![(105, 65), (105, 25), (15, 25), (15, 65)]);
}

#[test]
fn shadow_buffer_is_larger_by_the_background_padding() {
    let shadow = ShadowConfig { x: 0, y: 21, blur: 20, color: GREY };
    let padding = Padding { left: 82, right: 82, top: 82, bottom: 82 };
    let geometry =
        shadow_geometry(&RenderParams { x: 82, y: 82 }, &style(354, 90), &shadow, &padding)
            .unwrap();
    assert_eq!(
        geometry,
        Shadow {
            x: 0,
            y: 0,
            buffer_width: 518,
            buffer_height: 254,
            rectangle: Rectangle { x: 82, y: 103, width: 354, height: 90 },
            blur: 20,
            color: GREY,
        }
    );
    let uneven = Padding { left: 1, right: 2, top: 0, bottom: 5 };
    let geometry =
        shadow_geometry(&RenderParams { x: 0, y: 0 }, &style(10, 10), &shadow, &uneven).unwrap();
    assert_eq!((geometry.x, geometry.y), (-1, -2));
    assert_eq!((geometry.buffer_width, geometry.buffer_height), (13, 15));
    assert_eq!(
        shadow_geometry(&RenderParams { x: 0, y: 0 }, &style(0, 10), &shadow, &Padding::from_value(0)),
        Err(GeometryError::Degenerate)
    );
    assert_eq!(
        shadow_geometry(&RenderParams { x: 0, y: 0 }, &style(u32::MAX, 10), &shadow, &padding),
        Err(GeometryError::Overflow)
    );
}

#[test]
fn rect_paints_its_shadow_first() {
    let mut canvas = Canvas::new(600, 300, 1).unwrap();
    let shadow = Some(ShadowConfig { x: 0, y: 21, blur: 20, color: GREY });
    draw_rect(
        &mut canvas,
        12,
        RED,
        &shadow,
        &Padding::from_value(82),
        &RenderParams { x: 82, y: 82 },
        &style(354, 90),
    )
    .unwrap();
    let issued = commands(&canvas);
    assert_eq!(issued.len(), 2);
    assert!(matches!(issued[0], DrawCommand::DropShadow(_)));
    assert_eq!(
        issued[1],
        DrawCommand::FillRoundedRectangle {
            rounded: RoundedRectangle { x: 82, y: 82, width: 354, height: 90, radius: 12 },
            color: RED,
        }
    );
    let mut plain = Canvas::new(600, 300, 1).unwrap();
    draw_rect(
        &mut plain,
        12,
        RED,
        &None,
        &Padding::from_value(82),
        &RenderParams { x: 82, y: 82 },
        &style(354, 90),
    )
    .unwrap();
    assert_eq!(plain.len(), 1);
}

#[test]
fn title_bar_has_three_buttons() {
    let bar = MacTitleBar::new(true).into_component();
    assert_eq!(bar.style.width, Size::Num(62));
    assert_eq!(bar.style.height, Size::Num(12));
    assert_eq!(bar.style.margin, Margin { left: 0, right: 0, top: 0, bottom: 10 });
    assert!(!MacTitleBar::new(false).into_component().render_condition);
    let mut canvas = Canvas::new(100, 100, 1).unwrap();
    draw_control_buttons(&mut canvas, &RenderParams { x: 98, y: 98 }).unwrap();
    assert_eq!(
        commands(&canvas),
        vec![
            DrawCommand::FillCircle {
                circle: Circle { x: 104, y: 104, radius: 6 },
                color: RgbaColor { red: 255, green: 94, blue: 87, alpha: 255 },
            },
            DrawCommand::FillCircle {
                circle: Circle { x: 120, y: 104, radius: 6 },
                color: RgbaColor { red: 255, green: 186, blue: 46, alpha: 255 },
            },
            DrawCommand::FillCircle {
                circle: Circle { x: 136, y: 104, radius: 6 },
                color: RgbaColor { red: 43, green: 200, blue: 65, alpha: 255 },
            },
        ]
    );
    assert_eq!(
        draw_control_buttons(&mut canvas, &RenderParams { x: i64::MAX - 37, y: 0 }),
        Err(GeometryError::Overflow)
    );
}

#[test]
fn rect_that_cannot_be_painted_leaves_the_canvas() {
    let mut canvas = Canvas::new(600, 300, 1).unwrap();
    let shadow = Some(ShadowConfig { x: 0, y: 21, blur: 20, color: GREY });
    draw_rect(
        &mut canvas,
        12,
        RED,
        &None,
        &Padding::from_value(0),
        &RenderParams { x: 0, y: 0 },
        &style(100, 100),
    )
    .unwrap();
    let before = commands(&canvas);
    // The corners do not fit the sides.
    assert_eq!(
        draw_rect(
            &mut canvas,
            12,
            RED,
            &shadow,
            &Padding::from_value(82),
            &RenderParams { x: 0, y: 0 },
            &style(23, 100),
        ),
        Err(GeometryError::Degenerate)
    );
    assert_eq!(commands(&canvas), before);
    // The shadow has no buffer, though the rectangle could be painted.
    assert_eq!(
        draw_rect(
            &mut canvas,
            0,
            RED,
            &shadow,
            &Padding::from_value(0),
            &RenderParams { x: 0, y: 0 },
            &style(0, 100),
        ),
        Err(GeometryError::Degenerate)
    );
    assert_eq!(commands(&canvas), before);
    assert_eq!(
        draw_control_buttons(&mut canvas, &RenderParams { x: 0, y: i64::MAX }),
        Err(GeometryError::Overflow)
    );
    assert_eq!(commands(&canvas), before);
}

#[test]
fn highlights_before_a_failure_stay_on_the_canvas() {
    let mut canvas = Canvas::new(10, 10, 1).unwrap();
    let spans = vec![
        HighlightSpan { start_line_number: 1, end_line_number: 1, color: RED },
        HighlightSpan { start_line_number: 9, end_line_number: 9, color: GREY },
        HighlightSpan { start_line_number: 2, end_line_number: 2, color: RED },
    ];
    assert_eq!(
        draw_highlight_lines(&mut canvas, &spans, 0, 0, 100, 0, 5),
        Err(GeometryError::Degenerate)
    );
    assert_eq!(
        commands(&canvas),
        vec![DrawCommand::FillRectangle {
            rectangle: Rectangle { x: 0, y: 0, width: 100, height: 18 },
            color: RED,
        }]
    );
}
