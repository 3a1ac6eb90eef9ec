use super::interface::canvas::Canvas;
use super::interface::canvas::DrawCommand;
use super::interface::canvas::MAX_RASTER_WIDTH;
use super::interface::canvas::Rectangle;
use super::interface::canvas::RoundedRectangle;
use super::interface::canvas::Shadow;
use super::interface::canvas::raster_fits;
use super::interface::component::Component;
use super::interface::component::ComponentName;
use super::interface::component::ComponentView;
use super::interface::component::Painter;
use super::interface::component::PainterView;
use super::interface::component::RenderParams;
use super::interface::component::StyleMap;
use super::interface::component::components_view;
use super::interface::component::lemma_components_view;
use super::interface::component::max_width;
use super::interface::component::measure;
use super::interface::component::measure_children;
use super::interface::component::sum_heights;
use super::interface::render_error::GeometryError;
use super::interface::style::ComponentAlign;
use super::interface::style::ComponentStyle;
use super::interface::style::RawComponentStyle;
use super::interface::style::Style;
use crate::edges::edge::Edge;
use crate::edges::padding::Padding;
use crate::utils::color::RgbaColor;
use vstd::prelude::*;

verus! {

/// The shadow a rectangle casts: how far it is moved from the rectangle,
/// how far it is blurred, and its colour.
#[derive(Clone, Copy, Debug, PartialEq, Eq, Structural)]
pub struct ShadowConfig {
    pub x: i64,
    pub y: i64,
    pub blur: u32,
    pub color: RgbaColor,
}

/// The rounded rectangle that a component with the resolved style `style`
/// fills at `render_params`. There is none where the corners do not fit the
/// sides.
pub open spec fn rounded_rectangle_at(
    render_params: RenderParams,
    style: ComponentStyle,
    radius: u32,
) -> Result<RoundedRectangle, GeometryError> {
    if 2 * radius > style.width || 2 * radius > style.height {
        Err(GeometryError::Degenerate)
    } else if render_params.x + style.width > i64::MAX || render_params.y + style.height
        > i64::MAX {
        Err(GeometryError::Overflow)
    } else {
        Ok(
            RoundedRectangle {
                x: render_params.x,
                y: render_params.y,
                width: style.width,
                height: style.height,
                radius,
            },
        )
    }
}

pub fn rounded_rectangle(render_params: &RenderParams, style: &ComponentStyle, radius: u32) -> (shape:
    Result<RoundedRectangle, GeometryError>)
    ensures
        shape == rounded_rectangle_at(*render_params, *style, radius),
{
    if 2 * (radius as u64) > style.width as u64 || 2 * (radius as u64) > style.height as u64 {
        Err(GeometryError::Degenerate)
    } else if render_params.x > i64::MAX - style.width as i64 || render_params.y > i64::MAX
        - style.height as i64 {
        Err(GeometryError::Overflow)
    } else {
        Ok(
            RoundedRectangle {
                x: render_params.x,
                y: render_params.y,
                width: style.width,
                height: style.height,
                radius,
            },
        )
    }
}

/// The shadow behind a component with the resolved style `host_style` at
/// `render_params`. The buffer is larger than the component by the padding
/// round the window, so that the blur has room; the component's rectangle
/// sits in the buffer moved by half that padding and by the shadow's own
/// offset, and the buffer is laid onto the canvas half that padding before
/// the component.
pub open spec fn shadow_at(
    render_params: RenderParams,
    host_style: ComponentStyle,
    shadow: ShadowConfig,
    background_padding: Padding,
) -> Result<Shadow, GeometryError> {
    let buffer_width = host_style.width + background_padding.spec_horizontal();
    let buffer_height = host_style.height + background_padding.spec_vertical();
    let offset_x = background_padding.spec_horizontal() / 2;
    let offset_y = background_padding.spec_vertical() / 2;
    if buffer_width == 0 || buffer_height == 0 {
        Err(GeometryError::Degenerate)
    } else if !raster_fits(buffer_width as nat, buffer_height as nat) || shadow.x + offset_x
        > i64::MAX || shadow.y + offset_y > i64::MAX || render_params.x - offset_x < i64::MIN
        || render_params.y - offset_y < i64::MIN {
        Err(GeometryError::Overflow)
    } else {
        Ok(
            Shadow {
                x: (render_params.x - offset_x) as i64,
                y: (render_params.y - offset_y) as i64,
                buffer_width: buffer_width as u32,
                buffer_height: buffer_height as u32,
                rectangle: Rectangle {
                    x: (shadow.x + offset_x) as i64,
                    y: (shadow.y + offset_y) as i64,
                    width: host_style.width,
                    height: host_style.height,
                },
                blur: shadow.blur,
                color: shadow.color,
            },
        )
    }
}

pub fn shadow_geometry(
    render_params: &RenderParams,
    host_style: &ComponentStyle,
    shadow: &ShadowConfig,
    background_padding: &Padding,
) -> (geometry: Result<Shadow, GeometryError>)
    ensures
        geometry == shadow_at(*render_params, *host_style, *shadow, *background_padding),
{
    let buffer_width: u64 = host_style.width as u64 + background_padding.horizontal();
    let buffer_height: u64 = host_style.height as u64 + background_padding.vertical();
    let offset_x: i64 = (background_padding.horizontal() / 2) as i64;
    let offset_y: i64 = (background_padding.vertical() / 2) as i64;
    if buffer_width == 0 || buffer_height == 0 {
        return Err(GeometryError::Degenerate);
    }
    if buffer_width > MAX_RASTER_WIDTH as u64 || buffer_height > u32::MAX as u64 {
        return Err(GeometryError::Overflow);
    }
    assert(4 * buffer_width * buffer_height <= 4 * 0x1fff_ffff * 0xffff_ffff) by (nonlinear_arith)
        requires
            buffer_width <= 0x1fff_ffff,
            buffer_height <= 0xffff_ffff,
    ;
    let bytes: u128 = 4 * (buffer_width as u128) * (buffer_height as u128);
    if bytes > usize::MAX as u128 {
        return Err(GeometryError::Overflow);
    }
    if shadow.x > i64::MAX - offset_x || shadow.y > i64::MAX - offset_y || render_params.x
        < i64::MIN + offset_x || render_params.y < i64::MIN + offset_y {
        return Err(GeometryError::Overflow);
    }
    Ok(
        Shadow {
            x: render_params.x - offset_x,
            y: render_params.y - offset_y,
            buffer_width: buffer_width as u32,
            buffer_height: buffer_height as u32,
            rectangle: Rectangle {
                x: shadow.x + offset_x,
                y: shadow.y + offset_y,
                width: host_style.width,
                height: host_style.height,
            },
            blur: shadow.blur,
            color: shadow.color,
        },
    )
}

/// What a rectangle paints: its shadow first, where it has one, and then
/// itself on top of it.
pub open spec fn rect_commands(
    radius: u32,
    color: RgbaColor,
    shadow: Option<ShadowConfig>,
    background_padding: Padding,
    render_params: RenderParams,
    style: ComponentStyle,
) -> Result<Seq<DrawCommand>, GeometryError> {
    match rounded_rectangle_at(render_params, style, radius) {
        Err(error) => Err(error),
        Ok(rounded) => match shadow {
            None => Ok(seq![DrawCommand::FillRoundedRectangle { rounded, color }]),
            Some(config) => match shadow_at(render_params, style, config, background_padding) {
                Err(error) => Err(error),
                Ok(geometry) => Ok(
                    seq![
                        DrawCommand::DropShadow(geometry),
                        DrawCommand::FillRoundedRectangle { rounded, color },
                    ],
                ),
            },
        },
    }
}

/// Issues the commands that paint a rectangle. A rectangle that cannot be
/// painted leaves the canvas as it was.
pub fn draw_rect(
    canvas: &mut Canvas,
    radius: u32,
    color: RgbaColor,
    shadow: &Option<ShadowConfig>,
    background_padding: &Padding,
    render_params: &RenderParams,
    style: &ComponentStyle,
) -> (done: Result<(), GeometryError>)
    ensures
        match rect_commands(radius, color, *shadow, *background_padding, *render_params, *style) {
            Ok(commands) => done is Ok && final(canvas).commands() == old(canvas).commands()
                + commands,
            Err(error) => done == Err::<(), GeometryError>(error) && final(canvas).commands()
                == old(canvas).commands(),
        },
        final(canvas).spec_width() == old(canvas).spec_width(),
        final(canvas).spec_height() == old(canvas).spec_height(),
        final(canvas).spec_scale_factor() == old(canvas).spec_scale_factor(),
{
    let rounded = match rounded_rectangle(render_params, style, radius) {
        Ok(rounded) => rounded,
        Err(error) => {
            return Err(error);
        },
    };
    // The shadow goes first, so that the rectangle is painted over it.
    match shadow {
        Some(config) => {
            let geometry = match shadow_geometry(render_params, style, config, background_padding) {
                Ok(geometry) => geometry,
                Err(error) => {
                    return Err(error);
                },
            };
            canvas.push(DrawCommand::DropShadow(geometry));
        },
        None => {},
    }
    canvas.push(DrawCommand::FillRoundedRectangle { rounded, color });
    proof {
        let commands = rect_commands(
            radius,
            color,
            *shadow,
            *background_padding,
            *render_params,
            *style,
        ).unwrap();
        assert(canvas.commands() =~= old(canvas).commands() + commands);
    }
    Ok(())
}

impl RoundedRectangle {
    /// The corners do fit the sides, and the far corner has coordinates.
    pub open spec fn well_formed(&self) -> bool {
        &&& 2 * self.radius <= self.width
        &&& 2 * self.radius <= self.height
        &&& self.x + self.width <= i64::MAX
        &&& self.y + self.height <= i64::MAX
    }

    /// Whether the corners fit the sides, and the far corner has
    /// coordinates.
    pub fn check_well_formed(&self) -> (well_formed: bool)
        ensures
            well_formed == self.well_formed(),
    {
        2 * (self.radius as u64) <= self.width as u64 && 2 * (self.radius as u64)
            <= self.height as u64 && self.x <= i64::MAX - self.width as i64 && self.y <= i64::MAX
            - self.height as i64
    }

    /// The corners of the cross that is left of the rectangle when a square
    /// of the radius is cut out of each of its corners. The outline starts
    /// on the upper side and runs clockwise; its first two corners come once
    /// more at its end, which closes it.
    pub open spec fn spec_outline(&self) -> Seq<RenderParams> {
        let left = self.x as int;
        let top = self.y as int;
        let right = self.x + self.width;
        let bottom = self.y + self.height;
        let r = self.radius as int;
        seq![
            RenderParams { x: (left + r) as i64, y: top as i64 },
            RenderParams { x: (right - r) as i64, y: top as i64 },
            RenderParams { x: (right - r) as i64, y: (top + r) as i64 },
            RenderParams { x: right as i64, y: (top + r) as i64 },
            RenderParams { x: right as i64, y: (bottom - r) as i64 },
            RenderParams { x: (right - r) as i64, y: (bottom - r) as i64 },
            RenderParams { x: (right - r) as i64, y: bottom as i64 },
            RenderParams { x: (left + r) as i64, y: bottom as i64 },
            RenderParams { x: (left + r) as i64, y: (bottom - r) as i64 },
            RenderParams { x: left as i64, y: (bottom - r) as i64 },
            RenderParams { x: left as i64, y: (top + r) as i64 },
            RenderParams { x: (left + r) as i64, y: (top + r) as i64 },
            RenderParams { x: (left + r) as i64, y: top as i64 },
            RenderParams { x: (right - r) as i64, y: top as i64 },
        ]
    }

    /// The centres of the four circles that round the corners: lower right,
    /// upper right, upper left, lower left. Each lies one radius inside the
    /// two sides that meet at its corner.
    pub open spec fn spec_corners(&self) -> Seq<RenderParams> {
        let left = self.x as int;
        let top = self.y as int;
        let right = self.x + self.width;
        let bottom = self.y + self.height;
        let r = self.radius as int;
        seq![
            RenderParams { x: (right - r) as i64, y: (bottom - r) as i64 },
            RenderParams { x: (right - r) as i64, y: (top + r) as i64 },
            RenderParams { x: (left + r) as i64, y: (top + r) as i64 },
            RenderParams { x: (left + r) as i64, y: (bottom - r) as i64 },
        ]
    }

    /// A point lies in the rectangle, its sides included.
    pub open spec fn contains(&self, point: RenderParams) -> bool {
        &&& self.x <= point.x <= self.x + self.width
        &&& self.y <= point.y <= self.y + self.height
    }

    pub fn outline(&self) -> (points: Vec<RenderParams>)
        requires
            self.well_formed(),
        ensures
            points@ == self.spec_outline(),
            forall|i: int| 0 <= i < points@.len() ==> self.contains(#[trigger] points@[i]),
    {
        let left: i64 = self.x;
        let top: i64 = self.y;
        let right: i64 = self.x + self.width as i64;
        let bottom: i64 = self.y + self.height as i64;
        let r: i64 = self.radius as i64;
        let mut points: Vec<RenderParams> = Vec::new();
        points.push(RenderParams { x: left + r, y: top });
        points.push(RenderParams { x: right - r, y: top });
        points.push(RenderParams { x: right - r, y: top + r });
        points.push(RenderParams { x: right, y: top + r });
        points.push(RenderParams { x: right, y: bottom - r });
        points.push(RenderParams { x: right - r, y: bottom - r });
        points.push(RenderParams { x: right - r, y: bottom });
        points.push(RenderParams { x: left + r, y: bottom });
        points.push(RenderParams { x: left + r, y: bottom - r });
        points.push(RenderParams { x: left, y: bottom - r });
        points.push(RenderParams { x: left, y: top + r });
        points.push(RenderParams { x: left + r, y: top + r });
        points.push(RenderParams { x: left + r, y: top });
        points.push(RenderParams { x: right - r, y: top });
        assert(points@ =~= self.spec_outline());
        points
    }

    pub fn corners(&self) -> (centers: Vec<RenderParams>)
        requires
            self.well_formed(),
        ensures
            centers@ == self.spec_corners(),
            forall|i: int|
                0 <= i < centers@.len() ==> {
                    &&& self.x + self.radius <= (#[trigger] centers@[i]).x <= self.x + self.width
                        - self.radius
                    &&& self.y + self.radius <= centers@[i].y <= self.y + self.height
                        - self.radius
                },
    {
        let left: i64 = self.x;
        let top: i64 = self.y;
        let right: i64 = self.x + self.width as i64;
        let bottom: i64 = self.y + self.height as i64;
        let r: i64 = self.radius as i64;
        let mut centers: Vec<RenderParams> = Vec::new();
        centers.push(RenderParams { x: right - r, y: bottom - r });
        centers.push(RenderParams { x: right - r, y: top + r });
        centers.push(RenderParams { x: left + r, y: top + r });
        centers.push(RenderParams { x: left + r, y: bottom - r });
        assert(centers@ =~= self.spec_corners());
        centers
    }
}

/// A rectangle with rounded corners that holds its children one below the
/// other.
pub struct Rect {
    pub radius: u32,
    pub min_width: u32,
    pub padding: Padding,
    pub color: RgbaColor,
    pub children: Vec<Component>,
    pub shadow: Option<ShadowConfig>,
    pub component_name: ComponentName,
}

/// The node of a rectangle whose children are the given nodes.
pub open spec fn rect_view(
    radius: u32,
    color: RgbaColor,
    min_width: u32,
    padding: Padding,
    component_name: ComponentName,
    shadow: Option<ShadowConfig>,
    children: Seq<ComponentView>,
) -> ComponentView {
    ComponentView {
        name: component_name,
        render_condition: true,
        self_render_condition: true,
        style: (RawComponentStyle {
            min_width,
            align: ComponentAlign::Column,
            padding,
            ..RawComponentStyle::spec_default()
        }),
        painter: PainterView::Rect { radius, color, shadow },
        children,
    }
}

/// The node of a rectangle with a border. The border is not stroked: three
/// rectangles lie in one another. The outer one has the colour of the
/// border. The middle one has the colour of the border too; it lies in the
/// outer one by the width of the border, and its radius is less by as much.
/// The inner one has the colour of the content, lies in the middle one by
/// the width of the border, has a radius less by as much again, and holds
/// the children. The least widths grow from the inner to the outer by the
/// width of the border each. The shadow, where there is one, is cast by the
/// outer rectangle.
pub open spec fn bordered_rect_view(
    radius: u32,
    color: RgbaColor,
    min_width: u32,
    padding: Padding,
    border_width: u32,
    border_color: RgbaColor,
    shadow: Option<ShadowConfig>,
    children: Seq<ComponentView>,
) -> ComponentView {
    rect_view(
        radius,
        border_color,
        (min_width + 2 * border_width) as u32,
        Padding::uniform(border_width),
        ComponentName::RectUnderLayer,
        shadow,
        seq![
            rect_view(
                (radius - border_width) as u32,
                border_color,
                (min_width + border_width) as u32,
                Padding::uniform(border_width),
                ComponentName::RectBorderLayer,
                None,
                seq![
                    rect_view(
                        (radius - 2 * border_width) as u32,
                        color,
                        min_width,
                        padding,
                        ComponentName::RectInnerLayer,
                        None,
                        children,
                    ),
                ],
            ),
        ],
    )
}

/// A list of children with one member.
pub fn single_child(component: Component) -> (children: Vec<Component>)
    ensures
        children@ == seq![component],
        components_view(children@) == seq![component@],
{
    let mut children: Vec<Component> = Vec::new();
    children.push(component);
    proof {
        lemma_components_view(children@);
        assert(children@ =~= seq![component]);
        assert(components_view(children@) =~= seq![component@]);
    }
    children
}

impl Rect {
    /// The node that stands for the rectangle in a tree.
    pub open spec fn spec_component(self) -> ComponentView {
        rect_view(
            self.radius,
            self.color,
            self.min_width,
            self.padding,
            self.component_name,
            self.shadow,
            components_view(self.children@),
        )
    }

    /// A rectangle without a shadow. Without a least width it is as narrow
    /// as its children allow.
    pub fn new(
        radius: u32,
        color: RgbaColor,
        min_width: Option<u32>,
        padding: Padding,
        component_name: ComponentName,
        children: Vec<Component>,
    ) -> (rect: Rect)
        ensures
            rect == (Rect {
                radius,
                color,
                children,
                padding,
                min_width: match min_width {
                    Some(width) => width,
                    None => 0,
                },
                component_name,
                shadow: None,
            }),
    {
        Rect {
            radius,
            color,
            children,
            padding,
            min_width: match min_width {
                Some(width) => width,
                None => 0,
            },
            component_name,
            shadow: None,
        }
    }

    /// A rectangle with a border of the given width and colour. There is
    /// none where twice the border is more than the radius, or where the
    /// least width with the border on both sides is too large for a `u32`.
    pub fn create_with_border(
        radius: u32,
        color: RgbaColor,
        min_width: u32,
        padding: Padding,
        border_width: u32,
        border_color: RgbaColor,
        children: Vec<Component>,
    ) -> (rect: Result<Rect, GeometryError>)
        ensures
            2 * border_width > radius ==> rect == Err::<Rect, GeometryError>(
                GeometryError::Degenerate,
            ),
            2 * border_width <= radius && min_width + 2 * border_width > u32::MAX ==> rect == Err::<
                Rect,
                GeometryError,
            >(GeometryError::Overflow),
            2 * border_width <= radius && min_width + 2 * border_width <= u32::MAX ==> {
                &&& rect is Ok
                &&& rect.unwrap().shadow is None
                &&& rect.unwrap().spec_component() == bordered_rect_view(
                    radius,
                    color,
                    min_width,
                    padding,
                    border_width,
                    border_color,
                    None,
                    components_view(children@),
                )
            },
    {
        if 2 * (border_width as u64) > radius as u64 {
            return Err(GeometryError::Degenerate);
        }
        if min_width as u64 + 2 * (border_width as u64) > u32::MAX as u64 {
            return Err(GeometryError::Overflow);
        }
        let inner = Rect::new(
            radius - border_width * 2,
            color,
            Some(min_width),
            padding,
            ComponentName::RectInnerLayer,
            children,
        );
        let border = Rect::new(
            radius - border_width,
            border_color,
            Some(min_width + border_width),
            Padding::from_value(border_width),
            ComponentName::RectBorderLayer,
            single_child(inner.into_component()),
        );
        Ok(
            Rect::new(
                radius,
                border_color,
                Some(min_width + border_width * 2),
                Padding::from_value(border_width),
                ComponentName::RectUnderLayer,
                single_child(border.into_component()),
            ),
        )
    }

    /// The same rectangle with a shadow.
    pub fn shadow(self, x: i64, y: i64, blur: u32, color: RgbaColor) -> (rect: Rect)
        ensures
            rect == (Rect { shadow: Some(ShadowConfig { x, y, blur, color }), ..self }),
    {
        let mut rect = self;
        rect.shadow = Some(ShadowConfig { x, y, blur, color });
        rect
    }

    pub fn into_component(self) -> (component: Component)
        ensures
            component@ == self.spec_component(),
    {
        Component {
            name: self.component_name,
            render_condition: true,
            self_render_condition: true,
            style: Style::default().min_width(self.min_width).align(
                ComponentAlign::Column,
            ).padding(self.padding),
            painter: Painter::Rect { radius: self.radius, color: self.color, shadow: self.shadow },
            children: self.children,
        }
    }
}

/// The border of a bordered rectangle is equally thick on all sides: each
/// of the three layers is wider and higher than the layer in it by twice the
/// width of the border, and the inner layer is no narrower than the least
/// width. This holds of a render that has not resolved a style for one of
/// the three layers before.
pub proof fn lemma_border_is_even(
    radius: u32,
    color: RgbaColor,
    min_width: u32,
    padding: Padding,
    border_width: u32,
    border_color: RgbaColor,
    shadow: Option<ShadowConfig>,
    children: Seq<ComponentView>,
    parent_style: Option<ComponentStyle>,
    cache: StyleMap,
)
    requires
        2 * border_width <= radius,
        min_width + 2 * border_width <= u32::MAX,
        !cache.contains_key(ComponentName::RectUnderLayer),
        !cache.contains_key(ComponentName::RectBorderLayer),
        !cache.contains_key(ComponentName::RectInnerLayer),
        measure(
            bordered_rect_view(
                radius,
                color,
                min_width,
                padding,
                border_width,
                border_color,
                shadow,
                children,
            ),
            parent_style,
            cache,
        ) is Ok,
    ensures
        ({
            let measured = measure(
                bordered_rect_view(
                    radius,
                    color,
                    min_width,
                    padding,
                    border_width,
                    border_color,
                    shadow,
                    children,
                ),
                parent_style,
                cache,
            ).unwrap();
            let under = measured.style;
            let border = measured.cache[ComponentName::RectBorderLayer];
            let inner = measured.cache[ComponentName::RectInnerLayer];
            &&& measured.cache.contains_key(ComponentName::RectBorderLayer)
            &&& measured.cache.contains_key(ComponentName::RectInnerLayer)
            &&& under.width == border.width + 2 * border_width
            &&& under.height == border.height + 2 * border_width
            &&& border.width == inner.width + 2 * border_width
            &&& border.height == inner.height + 2 * border_width
            &&& inner.width >= min_width
        }),
{
    let inner_view = rect_view(
        (radius - 2 * border_width) as u32,
        color,
        min_width,
        padding,
        ComponentName::RectInnerLayer,
        None,
        children,
    );
    let border_view = rect_view(
        (radius - border_width) as u32,
        border_color,
        (min_width + border_width) as u32,
        Padding::uniform(border_width),
        ComponentName::RectBorderLayer,
        None,
        seq![inner_view],
    );
    let under_view = bordered_rect_view(
        radius,
        color,
        min_width,
        padding,
        border_width,
        border_color,
        shadow,
        children,
    );
    assert(under_view.children =~= seq![border_view]);
    assert(seq![border_view].drop_last() =~= Seq::<ComponentView>::empty());
    assert(seq![inner_view].drop_last() =~= Seq::<ComponentView>::empty());
    reveal_with_fuel(measure_children, 2);
    let inner_measured = measure(inner_view, None, cache).unwrap();
    let border_children = measure_children(seq![inner_view], cache).unwrap();
    assert(border_children.styles =~= seq![inner_measured.style]);
    let border_measured = measure(border_view, None, cache).unwrap();
    let under_children = measure_children(seq![border_view], cache).unwrap();
    assert(under_children.styles =~= seq![border_measured.style]);
    assert(seq![inner_measured.style].drop_last() =~= Seq::<ComponentStyle>::empty());
    assert(seq![border_measured.style].drop_last() =~= Seq::<ComponentStyle>::empty());
    reveal_with_fuel(max_width, 2);
    reveal_with_fuel(sum_heights, 2);
}

} // verus!
