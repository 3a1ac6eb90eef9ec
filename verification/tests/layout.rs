use codesnap::components::background::Background;
use codesnap::components::container::Container;
use codesnap::components::editor::code::Code;
use codesnap::components::interface::canvas::Canvas;
use codesnap::components::interface::canvas::CanvasFill;
use codesnap::components::interface::canvas::DrawCommand;
use codesnap::components::interface::canvas::TextRole;
use codesnap::components::interface::component::BackgroundPaint;
use codesnap::components::interface::component::Component;
use codesnap::components::interface::component::ComponentContext;
use codesnap::components::interface::component::ComponentName;
use codesnap::components::interface::component::ComponentRenderParams;
use codesnap::components::interface::component::Painter;
use codesnap::components::interface::component::RenderParams;
use codesnap::components::interface::component::StyleCache;
use codesnap::components::interface::render_error::GeometryError;
use codesnap::components::interface::style::parse_size;
use codesnap::components::interface::style::resolve;
use codesnap::components::interface::style::ComponentAlign;
use codesnap::components::interface::style::ComponentStyle;
use codesnap::components::interface::style::RawComponentStyle;
use codesnap::components::interface::style::Size;
use codesnap::components::interface::style::Style;
use codesnap::components::layout::column::Column;
use codesnap::components::layout::row::Row;
use codesnap::config::DimensionValue;
use codesnap::config::Point;
use codesnap::edges::edge::Edge;
use codesnap::edges::margin::Margin;
use codesnap::edges::padding::Padding;
use codesnap::utils::color::RgbaColor;

const WHITE: RgbaColor = RgbaColor { red: 255, green: 255, blue: 255, alpha: 255 };

fn context() -> ComponentContext {
    ComponentContext::new(1, BackgroundPaint::Solid(WHITE), Padding::from_value(0))
}

fn leaf(name: ComponentName, style: RawComponentStyle, role: TextRole) -> Component {
    Component {
        name,
        render_condition: true,
        self_render_condition: true,
        style,
        painter: Painter::Text(role),
        children: vec![],
    }
}

fn sized(width: u32, height: u32) -> Component {
    leaf(
        ComponentName::Stub,
        Style::default().size(Size::Num(width), Size::Num(height)),
        TextRole::Code,
    )
}

fn zero_style() -> ComponentStyle {
    ComponentStyle::default()
}

fn draw_at_origin(root: &Component, context: &mut ComponentContext, canvas: &mut Canvas) -> RenderParams {
    root.draw(
        canvas,
        context,
        ComponentRenderParams::default(),
        zero_style(),
        zero_style(),
    )
    .unwrap()
}

fn commands(canvas: &Canvas) -> Vec<DrawCommand> {
    (0..canvas.len()).map(|index| canvas.command(index).unwrap()).collect()
}

#[test]
fn edges_add_their_two_sides() {
    let padding = Padding { left: 1, right: 2, top: 30, bottom: 40 };
    assert_eq!(padding.horizontal(), 3);
    assert_eq!(padding.vertical(), 70);
    let margin = Margin { left: u32::MAX, right: u32::MAX, top: 5, bottom: 0 };
    assert_eq!(margin.horizontal(), 2 * (u32::MAX as u64));
    assert_eq!(margin.vertical(), 5);
    assert_eq!(Margin::from_value(3), Margin { left: 3, right: 3, top: 3, bottom: 3 });
    assert_eq!(Margin::default().horizontal(), 0);
}

#[test]
fn padding_from_config_prefers_the_single_value() {
    assert_eq!(Padding::from_config(1, 2, Some(9)), Padding::from_value(9));
    assert_eq!(
        Padding::from_config(1, 2, None),
        Padding { left: 1, right: 1, top: 2, bottom: 2 }
    );
    assert_eq!(Padding::default(), Padding::from_value(0));
}

#[test]
fn parse_size_follows_the_declaration() {
    assert_eq!(parse_size(Size::Num(7), 100, Some(50)), 7);
    assert_eq!(parse_size(Size::Dynamic, 100, Some(50)), 100);
    assert_eq!(parse_size(Size::Inherit, 100, Some(50)), 50);
    assert_eq!(parse_size(Size::Inherit, 100, None), 100);
}

#[test]
fn resolve_adds_padding_and_margin_then_clamps() {
    let style = Style::default()
        .size(Size::Num(10), Size::Num(20))
        .padding(Padding { left: 1, right: 2, top: 3, bottom: 4 })
        .margin(Margin { left: 5, right: 6, top: 7, bottom: 8 })
        .min_width(20);
    let resolved = resolve(style, 0, 0, None).unwrap();
    assert_eq!(resolved.width, 24);
    assert_eq!(resolved.height, 42);
    assert_eq!(resolved.min_width, 20);
    // The least width is compared with the width that holds padding and
    // margin already.
    let clamped = resolve(style.min_width(30), 0, 0, None).unwrap();
    assert_eq!(clamped.width, 30);
    assert_eq!(clamped.height, 42);
}

#[test]
fn resolve_inherits_from_the_parent() {
    let parent = ComponentStyle {
        width: 300,
        height: 200,
        min_width: 0,
        align: ComponentAlign::Row,
        padding: Padding::from_value(0),
        margin: Margin::from_value(0),
    };
    let style = Style::default().size(Size::Inherit, Size::Inherit);
    let resolved = resolve(style, 11, 12, Some(&parent)).unwrap();
    assert_eq!((resolved.width, resolved.height), (300, 200));
    let alone = resolve(style, 11, 12, None).unwrap();
    assert_eq!((alone.width, alone.height), (11, 12));
}

#[test]
fn resolve_fails_on_a_size_beyond_u32() {
    let style = Style::default().size(Size::Num(u32::MAX), Size::Num(1)).padding(Padding {
        left: 1,
        right: 0,
        top: 0,
        bottom: 0,
    });
    assert_eq!(resolve(style, 0, 0, None).unwrap_err(), GeometryError::Overflow);
    let tall = Style::default().size(Size::Dynamic, Size::Dynamic);
    assert_eq!(
        resolve(tall, 1, u32::MAX as u128 + 1, None).unwrap_err(),
        GeometryError::Overflow
    );
    assert!(resolve(tall, u32::MAX as u128, u32::MAX as u128, None).is_ok());
}

#[test]
fn row_of_two_children_is_as_wide_as_both() {
    let row = Row::from_children(vec![sized(10, 7), sized(20, 5)]).into_component();
    let mut context = context();
    let style = row.parsed_style(None, &mut context).unwrap();
    assert_eq!(style.width, 30);
    assert_eq!(style.height, 7);
}

#[test]
fn column_of_two_children_is_as_high_as_both() {
    let column = Column::from_children(vec![sized(10, 7), sized(20, 5)]).into_component();
    let mut context = context();
    let style = column.parsed_style(None, &mut context).unwrap();
    assert_eq!(style.width, 20);
    assert_eq!(style.height, 12);
}

#[test]
fn container_without_children_has_no_size() {
    let row = Row::from_children(vec![]).into_component();
    let mut context = context();
    let style = row.parsed_style(None, &mut context).unwrap();
    assert_eq!((style.width, style.height), (0, 0));
}

#[test]
fn resolved_size_covers_padding_and_margin() {
    let node = Component {
        name: ComponentName::Stub,
        render_condition: true,
        self_render_condition: true,
        style: Style::default()
            .padding(Padding { left: 3, right: 4, top: 5, bottom: 6 })
            .margin(Margin { left: 1, right: 1, top: 2, bottom: 2 }),
        painter: Painter::Nothing,
        children: vec![],
    };
    let mut context = context();
    let style = node.parsed_style(None, &mut context).unwrap();
    assert_eq!(style.width, 9);
    assert_eq!(style.height, 15);
    assert!(style.width as u64 >= style.padding.horizontal() + style.margin.horizontal());
    assert!(style.height as u64 >= style.padding.vertical() + style.margin.vertical());
}

#[test]
fn absent_component_takes_no_space_and_paints_nothing() {
    let mut hidden = Row::from_children(vec![sized(50, 60)]).into_component();
    hidden.render_condition = false;
    let row = Row::from_children(vec![sized(10, 7), hidden, sized(20, 5)]).into_component();
    let mut context = context();
    let style = row.parsed_style(None, &mut context).unwrap();
    assert_eq!((style.width, style.height), (30, 7));
    let mut canvas = Canvas::new(30, 7, 1).unwrap();
    draw_at_origin(&row, &mut context, &mut canvas);
    assert_eq!(
        commands(&canvas),
        vec![
            DrawCommand::Text { role: TextRole::Code, x: 0, y: 0 },
            DrawCommand::Text { role: TextRole::Code, x: 10, y: 0 },
        ]
    );
}

#[test]
fn absent_component_is_not_remembered() {
    let mut hidden = leaf(
        ComponentName::Title,
        Style::default().size(Size::Num(50), Size::Num(60)),
        TextRole::Title,
    );
    hidden.render_condition = false;
    let mut context = context();
    let style = hidden.parsed_style(None, &mut context).unwrap();
    assert_eq!((style.width, style.height), (0, 0));
    assert_eq!(context.style_map.get(ComponentName::Title), None);
}

#[test]
fn component_that_does_not_draw_itself_still_holds_its_children() {
    let node = Component {
        name: ComponentName::Stub,
        render_condition: true,
        self_render_condition: false,
        style: Style::default()
            .size(Size::Num(500), Size::Num(500))
            .align(ComponentAlign::Column)
            .padding(Padding::from_value(9))
            .min_width(400),
        painter: Painter::Text(TextRole::Title),
        children: vec![sized(10, 7), sized(20, 5)],
    };
    let mut context = context();
    let style = node.parsed_style(None, &mut context).unwrap();
    // Nothing of its own counts, but the direction of its children does.
    assert_eq!((style.width, style.height), (20, 12));
    assert_eq!(style.padding, Padding::from_value(0));
    let mut canvas = Canvas::new(20, 12, 1).unwrap();
    draw_at_origin(&node, &mut context, &mut canvas);
    assert_eq!(
        commands(&canvas),
        vec![
            DrawCommand::Text { role: TextRole::Code, x: 0, y: 0 },
            DrawCommand::Text { role: TextRole::Code, x: 0, y: 7 },
        ]
    );
}

#[test]
fn named_style_is_remembered_and_reused() {
    let first = leaf(
        ComponentName::Code,
        Style::default().size(Size::Num(10), Size::Num(7)),
        TextRole::Code,
    );
    let second = leaf(
        ComponentName::Code,
        Style::default().size(Size::Num(20), Size::Num(5)),
        TextRole::Code,
    );
    let mut context = context();
    assert_eq!(first.parsed_style(None, &mut context).unwrap().width, 10);
    assert_eq!(context.style_map.get(ComponentName::Code).unwrap().width, 10);
    // The second component has the same name: it gets the remembered style.
    assert_eq!(second.parsed_style(None, &mut context).unwrap().width, 10);
}

#[test]
fn unnamed_style_is_never_remembered() {
    let mut context = context();
    assert_eq!(sized(10, 7).parsed_style(None, &mut context).unwrap().width, 10);
    assert_eq!(context.style_map.get(ComponentName::Stub), None);
    assert_eq!(sized(20, 5).parsed_style(None, &mut context).unwrap().width, 20);
}

#[test]
fn style_cache_replaces_what_was_remembered() {
    let mut cache = StyleCache::new();
    assert_eq!(cache.get(ComponentName::Code), None);
    let mut style = zero_style();
    style.width = 4;
    cache.insert(ComponentName::Code, style);
    assert_eq!(cache.get(ComponentName::Code).unwrap().width, 4);
    style.width = 5;
    cache.insert(ComponentName::Code, style);
    assert_eq!(cache.get(ComponentName::Code).unwrap().width, 5);
    assert_eq!(cache.get(ComponentName::Title), None);
    assert_eq!(ComponentName::CommandLineOutput.index(), 13);
    assert!(ComponentName::Stub.is_stub());
    assert!(!ComponentName::Code.is_stub());
}

#[test]
fn measurement_fails_when_children_are_too_wide() {
    let row = Row::from_children(vec![sized(u32::MAX, 1), sized(1, 1)]).into_component();
    let mut context = context();
    assert_eq!(row.parsed_style(None, &mut context).unwrap_err(), GeometryError::Overflow);
    // A declared size hides what the children need.
    let mut fixed = Row::from_children(vec![sized(u32::MAX, 1), sized(1, 1)]).into_component();
    fixed.style = fixed.style.size(Size::Num(5), Size::Num(5));
    assert_eq!(fixed.parsed_style(None, &mut context).unwrap().width, 5);
}

#[test]
fn row_places_children_from_left_to_right() {
    let mut second = sized(20, 5);
    second.style = second.style.margin(Margin { left: 3, right: 0, top: 2, bottom: 0 });
    let mut first = sized(10, 7);
    first.style = first.style.padding(Padding { left: 1, right: 1, top: 0, bottom: 0 });
    let mut row = Row::from_children(vec![first, second]).into_component();
    row.style = row.style.padding(Padding { left: 100, right: 0, top: 200, bottom: 0 });
    let mut context = context();
    let mut canvas = Canvas::new(200, 300, 1).unwrap();
    let placed = draw_at_origin(&row, &mut context, &mut canvas);
    assert_eq!(placed, RenderParams { x: 0, y: 0 });
    // first: at the content origin of the row.
    // second: x = 100 + width 12 + margin 3 + padding 2 of the first,
    //         y = 200 + margin 2.
    assert_eq!(
        commands(&canvas),
        vec![
            DrawCommand::Text { role: TextRole::Code, x: 100, y: 200 },
            DrawCommand::Text { role: TextRole::Code, x: 117, y: 202 },
        ]
    );
}

#[test]
fn column_places_children_from_top_to_bottom() {
    let mut second = sized(20, 5);
    second.style = second.style.margin(Margin { left: 3, right: 0, top: 2, bottom: 0 });
    let mut first = sized(10, 7);
    first.style = first.style.padding(Padding { left: 0, right: 0, top: 1, bottom: 1 });
    let column = Column::from_children(vec![first, second]).into_component();
    let mut context = context();
    let mut canvas = Canvas::new(200, 300, 1).unwrap();
    draw_at_origin(&column, &mut context, &mut canvas);
    // second: x = 0 + margin 3, y = 0 + margin 2 + height 9 + padding 2.
    assert_eq!(
        commands(&canvas),
        vec![
            DrawCommand::Text { role: TextRole::Code, x: 0, y: 0 },
            DrawCommand::Text { role: TextRole::Code, x: 3, y: 13 },
        ]
    );
}

#[test]
fn placement_fails_beyond_the_largest_coordinate() {
    let node = sized(10, 7);
    let mut context = context();
    let mut canvas = Canvas::new(10, 10, 1).unwrap();
    let mut sibling = zero_style();
    sibling.width = 1;
    let drawn = node.draw(
        &mut canvas,
        &mut context,
        ComponentRenderParams {
            parent_render_params: RenderParams { x: 0, y: 0 },
            sibling_render_params: RenderParams { x: i64::MAX, y: 0 },
        },
        zero_style(),
        sibling,
    );
    assert_eq!(drawn.unwrap_err(), GeometryError::Overflow);
}

#[test]
fn background_without_padding_does_not_paint_itself() {
    let child = sized(10, 7);
    let background = Background::new(Padding::from_value(0), vec![child]);
    assert!(!Background::has_background(&Padding::from_value(0)));
    let root = Container::from_children(vec![background.into_component()]);
    let mut context = context();
    let canvas = root.draw_root(&mut context).unwrap();
    assert_eq!((canvas.width(), canvas.height()), (10, 7));
    assert_eq!(
        commands(&canvas),
        vec![DrawCommand::Text { role: TextRole::Code, x: 0, y: 0 }]
    );
}

#[test]
fn background_with_padding_fills_the_canvas_first() {
    let background = Background::new(
        Padding { left: 5, right: 0, top: 0, bottom: 0 },
        vec![sized(10, 7)],
    );
    assert!(Background::has_background(&Padding { left: 5, right: 0, top: 0, bottom: 0 }));
    assert!(Background::has_background(&Padding { left: 0, right: 0, top: 0, bottom: 1 }));
    let root = Container::from_children(vec![background.into_component()]);
    let mut context = ComponentContext::new(3, BackgroundPaint::Solid(WHITE), Padding::from_value(0));
    let canvas = root.draw_root(&mut context).unwrap();
    assert_eq!((canvas.width(), canvas.height(), canvas.scale_factor()), (45, 21, 3));
    assert_eq!(
        commands(&canvas),
        vec![
            DrawCommand::FillCanvas(CanvasFill::Solid(WHITE)),
            DrawCommand::Text { role: TextRole::Code, x: 5, y: 0 },
        ]
    );
}

#[test]
fn gradient_ends_are_resolved_on_the_canvas() {
    let background = Background::new(Padding::from_value(1), vec![sized(10, 7)]);
    let root = Container::from_children(vec![background.into_component()]);
    let mut context = ComponentContext::new(
        2,
        BackgroundPaint::Gradient {
            start: Point { x: DimensionValue::Num(0), y: DimensionValue::Num(-4) },
            end: Point { x: DimensionValue::Max, y: DimensionValue::Max },
        },
        Padding::from_value(0),
    );
    let canvas = root.draw_root(&mut context).unwrap();
    assert_eq!(
        canvas.command(0),
        Some(DrawCommand::FillCanvas(CanvasFill::LinearGradient {
            start_x: 0,
            start_y: -4,
            end_x: 24,
            end_y: 18,
        }))
    );
    let point = Point { x: DimensionValue::Max, y: DimensionValue::Num(3) }.into_f32_point(7, 9);
    assert_eq!((point.x, point.y), (7, 3));
}

#[test]
fn root_without_size_cannot_be_drawn() {
    let root = Container::from_children(vec![]);
    let mut context = context();
    assert_eq!(root.draw_root(&mut context).err(), Some(GeometryError::Degenerate));
}

#[test]
fn canvas_size_is_the_layout_times_the_scale_factor() {
    let canvas = Canvas::new(100, 50, 3).unwrap();
    assert_eq!((canvas.width(), canvas.height()), (300, 150));
    assert_eq!(canvas.len(), 0);
    assert_eq!(canvas.command(0), None);
    assert_eq!(Canvas::new(0, 50, 3).err(), Some(GeometryError::Degenerate));
    assert_eq!(Canvas::new(100, 50, 0).err(), Some(GeometryError::Degenerate));
    assert_eq!(Canvas::new(0x1fff_ffff, 1, 1).unwrap().width(), 0x1fff_ffff);
    assert_eq!(Canvas::new(0x2000_0000, 1, 1).err(), Some(GeometryError::Overflow));
    assert_eq!(Canvas::new(1, u32::MAX, 2).err(), Some(GeometryError::Overflow));
}

#[test]
fn code_component_has_the_measured_size() {
    let code = Code::new(11, 22).into_component();
    assert_eq!(code.name, ComponentName::Code);
    let mut context = context();
    let style = code.parsed_style(None, &mut context).unwrap();
    assert_eq!((style.width, style.height), (11, 22));
}

#[test]
fn geometry_errors_have_messages() {
    assert_eq!(GeometryError::Overflow.message(), "A length is too large to render");
    assert_eq!(GeometryError::Degenerate.message(), "A shape has no area to render");
}

#[test]
fn failed_draw_keeps_what_was_issued_before() {
    let mut bad = leaf(
        ComponentName::Stub,
        Style::default().size(Size::Num(4), Size::Num(4)),
        TextRole::Title,
    );
    bad.painter = Painter::Rect { radius: 9, color: WHITE, shadow: None };
    let row = Row::from_children(vec![sized(10, 7), bad, sized(20, 5)]).into_component();
    let mut context = context();
    let mut canvas = Canvas::new(40, 10, 1).unwrap();
    canvas.push(DrawCommand::FillCanvas(CanvasFill::Solid(WHITE)));
    let drawn = row.draw(
        &mut canvas,
        &mut context,
        ComponentRenderParams::default(),
        zero_style(),
        zero_style(),
    );
    assert_eq!(drawn, Err(GeometryError::Degenerate));
    // What the canvas held, and the first child; nothing of the child that
    // failed and nothing after it.
    assert_eq!(
        commands(&canvas),
        vec![
            DrawCommand::FillCanvas(CanvasFill::Solid(WHITE)),
            DrawCommand::Text { role: TextRole::Code, x: 0, y: 0 },
        ]
    );
}
