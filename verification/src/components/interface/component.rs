use super::canvas::Canvas;
use super::canvas::CanvasFill;
use super::canvas::DrawCommand;
use super::canvas::TextRole;
use super::render_error::GeometryError;
use super::style::ComponentAlign;
use super::style::ComponentStyle;
use super::style::RawComponentStyle;
use super::style::resolve;
use super::style::resolve_style;
use crate::components::editor::mac_title_bar::draw_control_buttons;
use crate::components::editor::mac_title_bar::title_bar_commands;
use crate::components::highlight_code_block::HighlightSpan;
use crate::components::highlight_code_block::draw_highlight_lines;
use crate::components::highlight_code_block::highlight_commands;
use crate::components::highlight_code_block::highlight_commands_issued;
use crate::components::highlight_code_block::lemma_highlight_commands_issued;
use crate::components::rect::ShadowConfig;
use crate::components::rect::draw_rect;
use crate::components::rect::rect_commands;
use crate::config::GradientPoint;
use crate::edges::edge::Edge;
use crate::edges::padding::Padding;
use crate::utils::color::RgbaColor;
use std::collections::HashMap;
use vstd::prelude::*;

verus! {

/// The name a component's resolved style is remembered under.
#[derive(Clone, Copy, Debug, PartialEq, Eq, Structural)]
pub enum ComponentName {
    /// No name. The style of such a component is never remembered: it is
    /// worked out again whenever it is asked for. Containers that only lay
    /// out their children have no name.
    Stub,
    Background,
    RectUnderLayer,
    RectBorderLayer,
    RectInnerLayer,
    Breadcrumbs,
    CodeBlock,
    HighlightCodeBlock,
    LineNumber,
    Code,
    MacTitleBar,
    Title,
    Watermark,
    CommandLineOutput,
}

/// How many names there are.
pub const NAME_COUNT: usize = 14;

impl ComponentName {
    /// The place of a name in the order in which the names are declared.
    pub open spec fn spec_index(self) -> nat {
        match self {
            ComponentName::Stub => 0,
            ComponentName::Background => 1,
            ComponentName::RectUnderLayer => 2,
            ComponentName::RectBorderLayer => 3,
            ComponentName::RectInnerLayer => 4,
            ComponentName::Breadcrumbs => 5,
            ComponentName::CodeBlock => 6,
            ComponentName::HighlightCodeBlock => 7,
            ComponentName::LineNumber => 8,
            ComponentName::Code => 9,
            ComponentName::MacTitleBar => 10,
            ComponentName::Title => 11,
            ComponentName::Watermark => 12,
            ComponentName::CommandLineOutput => 13,
        }
    }

    pub fn index(self) -> (index: usize)
        ensures
            index == self.spec_index(),
            index < NAME_COUNT,
    {
        match self {
            ComponentName::Stub => 0,
            ComponentName::Background => 1,
            ComponentName::RectUnderLayer => 2,
            ComponentName::RectBorderLayer => 3,
            ComponentName::RectInnerLayer => 4,
            ComponentName::Breadcrumbs => 5,
            ComponentName::CodeBlock => 6,
            ComponentName::HighlightCodeBlock => 7,
            ComponentName::LineNumber => 8,
            ComponentName::Code => 9,
            ComponentName::MacTitleBar => 10,
            ComponentName::Title => 11,
            ComponentName::Watermark => 12,
            ComponentName::CommandLineOutput => 13,
        }
    }

    pub fn is_stub(self) -> (stub: bool)
        ensures
            stub == (self == ComponentName::Stub),
    {
        match self {
            ComponentName::Stub => true,
            _ => false,
        }
    }
}

/// The resolved styles of one render, by the name of the component.
pub type StyleMap = Map<ComponentName, ComponentStyle>;

/// The styles that one render has resolved so far, each under the place
/// of the name of its component. A cache belongs to one traversal of one
/// tree: every render starts with an empty one.
pub struct StyleCache {
    styles: HashMap<usize, ComponentStyle>,
}

impl View for StyleCache {
    type V = StyleMap;

    closed spec fn view(&self) -> StyleMap {
        Map::new(
            |name: ComponentName| self.styles@.contains_key(name.spec_index() as usize),
            |name: ComponentName| self.styles@[name.spec_index() as usize],
        )
    }
}

impl StyleCache {
    /// Every style in the cache covers its own padding and margin. Every
    /// cache made by `new` is well formed, and `insert` keeps it so.
    pub closed spec fn well_formed(&self) -> bool {
        forall|place: usize| #[trigger]
            self.styles@.contains_key(place) ==> self.styles@[place].covers_edges()
    }

    /// Every style in a well-formed cache covers its own padding and
    /// margin.
    pub proof fn lemma_covers_edges(&self)
        requires
            self.well_formed(),
        ensures
            forall|name: ComponentName| #[trigger]
                self@.contains_key(name) ==> self@[name].covers_edges(),
    {
        assert forall|name: ComponentName| #[trigger] self@.contains_key(name) implies self@[name].covers_edges() by {
            assert(self.styles@.contains_key(name.spec_index() as usize));
        }
    }

    /// A cache that holds no style.
    pub fn new() -> (cache: StyleCache)
        ensures
            cache.well_formed(),
            cache@ == StyleMap::empty(),
    {
        let cache = StyleCache { styles: HashMap::new() };
        assert(cache@ =~= StyleMap::empty());
        cache
    }

    /// The style remembered under `name`, if there is one.
    pub fn get(&self, name: ComponentName) -> (style: Option<ComponentStyle>)
        requires
            self.well_formed(),
        ensures
            style == if self@.contains_key(name) {
                Some(self@[name])
            } else {
                None
            },
    {
        broadcast use vstd::std_specs::hash::group_hash_axioms;

        let place: usize = name.index();
        match self.styles.get(&place) {
            Some(style) => Some(*style),
            None => None,
        }
    }

    /// Remembers `style` under `name`, in place of what was there.
    pub fn insert(&mut self, name: ComponentName, style: ComponentStyle)
        requires
            old(self).well_formed(),
            style.covers_edges(),
        ensures
            final(self).well_formed(),
            final(self)@ == old(self)@.insert(name, style),
    {
        broadcast use vstd::std_specs::hash::group_hash_axioms;

        self.styles.insert(name.index(), style);
        assert(self@ =~= old(self)@.insert(name, style)) by {
            assert forall|other: ComponentName| other.spec_index() == name.spec_index() implies other
                == name by {}
        }
    }
}

/// A position on the canvas: where the upper left corner of a component
/// goes.
#[derive(Clone, Copy, Debug, Default, PartialEq, Eq, Structural)]
pub struct RenderParams {
    pub x: i64,
    pub y: i64,
}

/// What a component is positioned against: the position of its parent, and
/// the position of the sibling before it. For a first child the sibling is
/// a component of no size at the place where the parent's content starts.
#[derive(Clone, Copy, Debug, Default)]
pub struct ComponentRenderParams {
    pub parent_render_params: RenderParams,
    pub sibling_render_params: RenderParams,
}

/// What the canvas of a render is filled with: one colour, or a linear
/// gradient between two points.
#[derive(Clone, Copy, Debug)]
pub enum BackgroundPaint {
    Solid(RgbaColor),
    Gradient { start: GradientPoint, end: GradientPoint },
}

/// What holds for one render as a whole.
pub struct ComponentContext {
    /// How many pixels of the raster one logical pixel takes, in each
    /// direction.
    pub scale_factor: u8,
    /// What the background component fills the canvas with.
    pub background: BackgroundPaint,
    /// The padding round the window. A shadow's buffer is larger than the
    /// component that casts it by this much.
    pub background_padding: Padding,
    /// The styles resolved so far.
    pub style_map: StyleCache,
}

impl ComponentContext {
    /// The context of a render that has resolved no style yet.
    pub fn new(scale_factor: u8, background: BackgroundPaint, background_padding: Padding) -> (context:
        ComponentContext)
        ensures
            context.scale_factor == scale_factor,
            context.background == background,
            context.background_padding == background_padding,
            context.style_map.well_formed(),
            context.style_map@ == StyleMap::empty(),
    {
        ComponentContext {
            scale_factor,
            background,
            background_padding,
            style_map: StyleCache::new(),
        }
    }

    /// Two contexts differ in the styles they have resolved at most.
    pub open spec fn same_render(&self, other: &ComponentContext) -> bool {
        &&& self.scale_factor == other.scale_factor
        &&& self.background == other.background
        &&& self.background_padding == other.background_padding
    }
}

/// How a component draws itself.
pub enum Painter {
    /// It draws nothing: it only lays out its children.
    Nothing,
    /// It fills the canvas with the background of the render.
    Background,
    /// It fills a rounded rectangle of its own size, over its shadow where
    /// it has one.
    Rect { radius: u32, color: RgbaColor, shadow: Option<ShadowConfig> },
    /// It highlights runs of lines of the code block it stands in.
    HighlightCodeBlock {
        highlight_lines: Vec<HighlightSpan>,
        editor_padding: Padding,
        code_line_count: usize,
    },
    /// It paints the three control buttons of a window.
    MacTitleBar,
    /// It paints a text at its own position.
    Text(TextRole),
    /// It paints one line of text at its own height, centred on the canvas.
    CenteredLine(TextRole),
}

/// How a component draws itself, as a mathematical value.
pub enum PainterView {
    Nothing,
    Background,
    Rect { radius: u32, color: RgbaColor, shadow: Option<ShadowConfig> },
    HighlightCodeBlock {
        highlight_lines: Seq<HighlightSpan>,
        editor_padding: Padding,
        code_line_count: usize,
    },
    MacTitleBar,
    Text(TextRole),
    CenteredLine(TextRole),
}

impl View for Painter {
    type V = PainterView;

    open spec fn view(&self) -> PainterView {
        match *self {
            Painter::Nothing => PainterView::Nothing,
            Painter::Background => PainterView::Background,
            Painter::Rect { radius, color, shadow } => PainterView::Rect { radius, color, shadow },
            Painter::HighlightCodeBlock {
                highlight_lines,
                editor_padding,
                code_line_count,
            } => PainterView::HighlightCodeBlock {
                highlight_lines: highlight_lines@,
                editor_padding,
                code_line_count,
            },
            Painter::MacTitleBar => PainterView::MacTitleBar,
            Painter::Text(role) => PainterView::Text(role),
            Painter::CenteredLine(role) => PainterView::CenteredLine(role),
        }
    }
}

/// What the painters read of the render.
pub struct Scene {
    pub background: BackgroundPaint,
    pub background_padding: Padding,
    pub canvas_width: u32,
    pub canvas_height: u32,
}

/// The scene of a render with the given context and canvas.
pub open spec fn scene_of(context: &ComponentContext, canvas: &Canvas) -> Scene {
    Scene {
        background: context.background,
        background_padding: context.background_padding,
        canvas_width: canvas.spec_width(),
        canvas_height: canvas.spec_height(),
    }
}

/// What the canvas is filled with: the colour, or the gradient between its
/// two ends as they lie on a canvas of this size.
pub open spec fn canvas_fill(background: BackgroundPaint, width: u32, height: u32) -> CanvasFill {
    match background {
        BackgroundPaint::Solid(color) => CanvasFill::Solid(color),
        BackgroundPaint::Gradient { start, end } => CanvasFill::LinearGradient {
            start_x: start.spec_into_point(width, height).x,
            start_y: start.spec_into_point(width, height).y,
            end_x: end.spec_into_point(width, height).x,
            end_y: end.spec_into_point(width, height).y,
        },
    }
}

/// The commands with which a painter draws a component that was resolved
/// to `style` and placed at `render_params`, inside a parent that was
/// resolved to `parent_style`.
pub open spec fn paint(
    painter: PainterView,
    scene: Scene,
    render_params: RenderParams,
    style: ComponentStyle,
    parent_style: ComponentStyle,
) -> Result<Seq<DrawCommand>, GeometryError> {
    match painter {
        PainterView::Nothing => Ok(Seq::empty()),
        PainterView::Background => Ok(
            seq![
                DrawCommand::FillCanvas(
                    canvas_fill(scene.background, scene.canvas_width, scene.canvas_height),
                ),
            ],
        ),
        PainterView::Rect { radius, color, shadow } => rect_commands(
            radius,
            color,
            shadow,
            scene.background_padding,
            render_params,
            style,
        ),
        PainterView::HighlightCodeBlock {
            highlight_lines,
            editor_padding,
            code_line_count,
        } => highlight_commands(
            highlight_lines,
            render_params.x,
            render_params.y,
            parent_style.width,
            editor_padding.left,
            code_line_count as nat,
        ),
        PainterView::MacTitleBar => title_bar_commands(render_params),
        PainterView::Text(role) => Ok(
            seq![DrawCommand::Text { role, x: render_params.x, y: render_params.y }],
        ),
        PainterView::CenteredLine(role) => Ok(
            seq![DrawCommand::CenteredLine { role, y: render_params.y }],
        ),
    }
}

/// The commands that a painter issues whether or not it can draw all of
/// the component: all of its commands where it can, and else none, but for
/// the highlights, of which those before the first that fails are issued.
pub open spec fn painted(
    painter: PainterView,
    scene: Scene,
    render_params: RenderParams,
    style: ComponentStyle,
    parent_style: ComponentStyle,
) -> Seq<DrawCommand> {
    match painter {
        PainterView::HighlightCodeBlock {
            highlight_lines,
            editor_padding,
            code_line_count,
        } => highlight_commands_issued(
            highlight_lines,
            render_params.x,
            render_params.y,
            parent_style.width,
            editor_padding.left,
            code_line_count as nat,
        ),
        _ => match paint(painter, scene, render_params, style, parent_style) {
            Ok(commands) => commands,
            Err(_) => Seq::empty(),
        },
    }
}

/// Where a painter can draw all of the component, what it issues is all of
/// its commands.
pub proof fn lemma_painted(
    painter: PainterView,
    scene: Scene,
    render_params: RenderParams,
    style: ComponentStyle,
    parent_style: ComponentStyle,
)
    requires
        paint(painter, scene, render_params, style, parent_style) is Ok,
    ensures
        painted(painter, scene, render_params, style, parent_style) == paint(
            painter,
            scene,
            render_params,
            style,
            parent_style,
        ).unwrap(),
{
    match painter {
        PainterView::HighlightCodeBlock { highlight_lines, editor_padding, code_line_count } => {
            lemma_highlight_commands_issued(
                highlight_lines,
                render_params.x,
                render_params.y,
                parent_style.width,
                editor_padding.left,
                code_line_count as nat,
            );
        },
        _ => {},
    }
}

/// A node of the tree that a snapshot is drawn from.
pub struct Component {
    /// The name the resolved style is remembered under.
    pub name: ComponentName,
    /// Whether the component is there at all. Where it is not, neither it
    /// nor anything below it takes space or is drawn.
    pub render_condition: bool,
    /// Whether the component draws itself. Where it does not, it counts
    /// with no size, padding or margin of its own, and its children are
    /// measured and drawn as ever.
    pub self_render_condition: bool,
    /// The style the component declares.
    pub style: RawComponentStyle,
    /// How the component draws itself.
    pub painter: Painter,
    /// The children, in the order in which they are laid out and drawn: a
    /// later child is painted over an earlier one.
    pub children: Vec<Component>,
}

/// A node of the tree as a mathematical value: the tree below it is a
/// sequence of such values.
pub struct ComponentView {
    pub name: ComponentName,
    pub render_condition: bool,
    pub self_render_condition: bool,
    pub style: RawComponentStyle,
    pub painter: PainterView,
    pub children: Seq<ComponentView>,
}

/// The tree below and with `component` as a mathematical value.
pub open spec fn component_view(component: Component) -> ComponentView
    decreases component, 1nat,
{
    ComponentView {
        name: component.name,
        render_condition: component.render_condition,
        self_render_condition: component.self_render_condition,
        style: component.style,
        painter: component.painter@,
        children: components_view(component.children@),
    }
}

/// The trees of the given components, in their order.
pub open spec fn components_view(components: Seq<Component>) -> Seq<ComponentView>
    decreases components, 0nat,
{
    if components.len() == 0 {
        Seq::empty()
    } else {
        components_view(components.drop_last()).push(component_view(components.last()))
    }
}

impl View for Component {
    type V = ComponentView;

    open spec fn view(&self) -> ComponentView {
        component_view(*self)
    }
}

/// The views of a sequence of components are the views of its members,
/// one for one.
pub proof fn lemma_components_view(components: Seq<Component>)
    ensures
        components_view(components).len() == components.len(),
        forall|i: int|
            0 <= i < components.len() ==> #[trigger] components_view(components)[i]
                == components[i]@,
    decreases components.len(),
{
    if components.len() > 0 {
        lemma_components_view(components.drop_last());
    }
}

/// The sum of the widths of the given styles.
pub open spec fn sum_widths(styles: Seq<ComponentStyle>) -> nat
    decreases styles.len(),
{
    if styles.len() == 0 {
        0
    } else {
        sum_widths(styles.drop_last()) + styles.last().width as nat
    }
}

/// The sum of the heights of the given styles.
pub open spec fn sum_heights(styles: Seq<ComponentStyle>) -> nat
    decreases styles.len(),
{
    if styles.len() == 0 {
        0
    } else {
        sum_heights(styles.drop_last()) + styles.last().height as nat
    }
}

/// The largest of the widths of the given styles, 0 where there is none.
pub open spec fn max_width(styles: Seq<ComponentStyle>) -> nat
    decreases styles.len(),
{
    if styles.len() == 0 {
        0
    } else if max_width(styles.drop_last()) >= styles.last().width {
        max_width(styles.drop_last())
    } else {
        styles.last().width as nat
    }
}

/// The largest of the heights of the given styles, 0 where there is none.
pub open spec fn max_height(styles: Seq<ComponentStyle>) -> nat
    decreases styles.len(),
{
    if styles.len() == 0 {
        0
    } else if max_height(styles.drop_last()) >= styles.last().height {
        max_height(styles.drop_last())
    } else {
        styles.last().height as nat
    }
}

/// The width that children with the given resolved styles need: in a row
/// the sum of their widths, in a column the largest of them.
pub open spec fn dynamic_width(align: ComponentAlign, styles: Seq<ComponentStyle>) -> nat {
    match align {
        ComponentAlign::Row => sum_widths(styles),
        ComponentAlign::Column => max_width(styles),
    }
}

/// The height that children with the given resolved styles need: in a row
/// the largest of their heights, in a column the sum of them.
pub open spec fn dynamic_height(align: ComponentAlign, styles: Seq<ComponentStyle>) -> nat {
    match align {
        ComponentAlign::Row => max_height(styles),
        ComponentAlign::Column => sum_heights(styles),
    }
}

/// The outcome of measuring the children of a component.
pub struct MeasuredChildren {
    /// The resolved style of each child, in the order of the children.
    pub styles: Seq<ComponentStyle>,
    /// The styles remembered after the last child.
    pub cache: StyleMap,
}

/// The outcome of measuring one component.
pub struct Measured {
    /// The resolved style of the component.
    pub style: ComponentStyle,
    /// The styles remembered after it.
    pub cache: StyleMap,
}

impl ComponentView {
    /// The style the component is measured with: the one it declares where
    /// it draws itself, else one that keeps the direction of the children
    /// and nothing more.
    pub open spec fn declared_style(&self) -> RawComponentStyle {
        if self.self_render_condition {
            self.style
        } else {
            self.style.spec_silenced()
        }
    }

    /// The style of the component is taken from the cache and not worked
    /// out: the component has a name, and a style is remembered under it.
    pub open spec fn is_remembered(&self, cache: StyleMap) -> bool {
        self.name != ComponentName::Stub && cache.contains_key(self.name)
    }

    /// The cache after the component was resolved to `style`: a component
    /// with a name is remembered, one without is not.
    pub open spec fn remember(&self, cache: StyleMap, style: ComponentStyle) -> StyleMap {
        if self.name == ComponentName::Stub {
            cache
        } else {
            cache.insert(self.name, style)
        }
    }
}

/// Measures a component: the first pass of a render.
///
/// A style remembered under the component's name is the answer. Else a
/// component that is not there has the style of no size, and nothing is
/// remembered. Else its children are measured, each without a parent, from
/// first to last; what they need in the direction of the component is
/// resolved against its declared style and `parent_style`, and the result
/// is remembered under its name.
pub open spec fn measure(
    component: ComponentView,
    parent_style: Option<ComponentStyle>,
    cache: StyleMap,
) -> Result<Measured, GeometryError>
    decreases component, 1nat,
{
    if component.is_remembered(cache) {
        Ok(Measured { style: cache[component.name], cache })
    } else if !component.render_condition {
        Ok(Measured { style: ComponentStyle::zero(), cache })
    } else {
        match measure_children(component.children, cache) {
            Err(error) => Err(error),
            Ok(children) => {
                let declared = component.declared_style();
                match resolve_style(
                    declared,
                    dynamic_width(declared.align, children.styles),
                    dynamic_height(declared.align, children.styles),
                    parent_style,
                ) {
                    Err(error) => Err(error),
                    Ok(style) => Ok(
                        Measured { style, cache: component.remember(children.cache, style) },
                    ),
                }
            },
        }
    }
}

/// Measures the given components from first to last, each without a
/// parent, handing the cache on from one to the next.
pub open spec fn measure_children(children: Seq<ComponentView>, cache: StyleMap) -> Result<
    MeasuredChildren,
    GeometryError,
>
    decreases children, 0nat,
{
    if children.len() == 0 {
        Ok(MeasuredChildren { styles: Seq::empty(), cache })
    } else {
        match measure_children(children.drop_last(), cache) {
            Err(error) => Err(error),
            Ok(before) => match measure(children.last(), None, before.cache) {
                Err(error) => Err(error),
                Ok(last) => Ok(
                    MeasuredChildren { styles: before.styles.push(last.style), cache: last.cache },
                ),
            },
        }
    }
}

/// The parent's style as a value, where there is a parent.
pub open spec fn parent_of(parent_style: Option<&ComponentStyle>) -> Option<ComponentStyle> {
    match parent_style {
        Some(style) => Some(*style),
        None => None,
    }
}

proof fn lemma_aggregates_push(styles: Seq<ComponentStyle>, style: ComponentStyle)
    ensures
        sum_widths(styles.push(style)) == sum_widths(styles) + style.width,
        sum_heights(styles.push(style)) == sum_heights(styles) + style.height,
        max_width(styles.push(style)) == if max_width(styles) >= style.width {
            max_width(styles)
        } else {
            style.width as nat
        },
        max_height(styles.push(style)) == if max_height(styles) >= style.height {
            max_height(styles)
        } else {
            style.height as nat
        },
{
    assert(styles.push(style).drop_last() =~= styles);
    assert(styles.push(style).last() == style);
}

impl Component {
    /// The resolved style of the component: the measurement pass.
    ///
    /// The styles that the pass works out are remembered in the context,
    /// under the names of their components. The pass fails where a resolved
    /// size is too large for a `u32`.
    pub fn parsed_style(
        &self,
        parent_style: Option<&ComponentStyle>,
        context: &mut ComponentContext,
    ) -> (resolved: Result<ComponentStyle, GeometryError>)
        requires
            old(context).style_map.well_formed(),
        ensures
            final(context).style_map.well_formed(),
            final(context).same_render(old(context)),
            match measure(self@, parent_of(parent_style), old(context).style_map@) {
                Ok(measured) => resolved == Ok::<ComponentStyle, GeometryError>(measured.style)
                    && final(context).style_map@ == measured.cache,
                Err(error) => resolved == Err::<ComponentStyle, GeometryError>(error),
            },
            resolved is Ok ==> resolved.unwrap().covers_edges(),
        decreases self, 1nat,
    {
        let name = self.name;
        if !name.is_stub() {
            match context.style_map.get(name) {
                Some(style) => {
                    proof {
                        context.style_map.lemma_covers_edges();
                    }
                    return Ok(style);
                },
                None => {},
            }
        }
        // A component that is not there takes no space, and neither does
        // anything below it.

        if !self.render_condition {
            return Ok(ComponentStyle::default());
        }
        // A component that does not draw itself counts with no size of its
        // own.

        let style = if self.self_render_condition {
            self.style
        } else {
            self.style.silenced()
        };
        let (width, height): (u128, u128) = match self.get_dynamic_wh(style, context) {
            Ok(needed) => needed,
            Err(error) => {
                return Err(error);
            },
        };
        proof {
            let count = self.children@.len();
            assert(count == self.children.len());
            lemma_components_view(self.children@);
            assert(count * 0xffff_ffff <= 0xffff_ffff_ffff_ffff * 0xffff_ffff) by (nonlinear_arith)
                requires
                    count <= 0xffff_ffff_ffff_ffff,
            ;
        }
        let resolved = match resolve(style, width, height, parent_style) {
            Ok(resolved) => resolved,
            Err(error) => {
                return Err(error);
            },
        };
        if !name.is_stub() {
            context.style_map.insert(name, resolved);
        }
        Ok(resolved)
    }

    /// The width and height that the children need, (0, 0) where there are
    /// none. Every child is measured on the way.
    pub fn get_dynamic_wh(&self, style: RawComponentStyle, context: &mut ComponentContext) -> (needed:
        Result<(u128, u128), GeometryError>)
        requires
            old(context).style_map.well_formed(),
        ensures
            final(context).style_map.well_formed(),
            final(context).same_render(old(context)),
            match measure_children(self@.children, old(context).style_map@) {
                Ok(children) => {
                    &&& needed == Ok::<(u128, u128), GeometryError>(
                        (
                            dynamic_width(style.align, children.styles) as u128,
                            dynamic_height(style.align, children.styles) as u128,
                        ),
                    )
                    &&& dynamic_width(style.align, children.styles) <= self.children@.len()
                        * 0xffff_ffff
                    &&& dynamic_height(style.align, children.styles) <= self.children@.len()
                        * 0xffff_ffff
                    &&& final(context).style_map@ == children.cache
                },
                Err(error) => needed == Err::<(u128, u128), GeometryError>(error),
            },
        decreases self, 0nat,
    {
        let mut width: u128 = 0;
        let mut height: u128 = 0;
        let ghost mut styles: Seq<ComponentStyle> = Seq::empty();
        let count: usize = self.children.len();
        let mut index: usize = 0;
        proof {
            lemma_components_view(self.children@);
        }
        assert(self@.children.take(0) =~= Seq::<ComponentView>::empty());
        while index < count
            invariant
                index <= count,
                count == self.children@.len(),
                self@.children.len() == count,
                forall|i: int| 0 <= i < count ==> #[trigger] self@.children[i] == self.children@[i]@,
                context.style_map.well_formed(),
                context.same_render(old(context)),
                measure_children(self@.children.take(index as int), old(context).style_map@) == Ok::<
                    MeasuredChildren,
                    GeometryError,
                >(MeasuredChildren { styles, cache: context.style_map@ }),
                width == dynamic_width(style.align, styles),
                height == dynamic_height(style.align, styles),
                width <= index * 0xffff_ffff,
                height <= index * 0xffff_ffff,
            decreases count - index,
        {
            let ghost prefix = self@.children.take(index as int);
            let ghost next = self@.children.take(index + 1);
            proof {
                assert(next.drop_last() =~= prefix);
                assert(next.last() == self.children@[index as int]@);
            }
            let child_style = match self.children[index].parsed_style(None, context) {
                Ok(child_style) => child_style,
                Err(error) => {
                    proof {
                        lemma_measure_children_fails_on(
                            self@.children,
                            index + 1,
                            old(context).style_map@,
                        );
                    }
                    return Err(error);
                },
            };
            proof {
                lemma_aggregates_push(styles, child_style);
                assert(index * 0xffff_ffff + 0xffff_ffff == (index + 1) * 0xffff_ffff)
                    by (nonlinear_arith);
                assert((index + 1) * 0xffff_ffff <= 0xffff_ffff_ffff_ffff * 0xffff_ffff)
                    by (nonlinear_arith)
                    requires
                        index + 1 <= 0xffff_ffff_ffff_ffff,
                ;
            }
            match style.align {
                ComponentAlign::Row => {
                    width = width + child_style.width as u128;
                    if child_style.height as u128 > height {
                        height = child_style.height as u128;
                    }
                },
                ComponentAlign::Column => {
                    if child_style.width as u128 > width {
                        width = child_style.width as u128;
                    }
                    height = height + child_style.height as u128;
                },
            }
            proof {
                styles = styles.push(child_style);
            }
            index = index + 1;
        }
        assert(self@.children.take(count as int) =~= self@.children);
        Ok((width, height))
    }
}

/// Where measuring the first `count` of the given components fails, so
/// does measuring all of them, and with the same error.
pub proof fn lemma_measure_children_fails_on(
    children: Seq<ComponentView>,
    count: int,
    cache: StyleMap,
)
    requires
        0 <= count <= children.len(),
        measure_children(children.take(count), cache) is Err,
    ensures
        measure_children(children, cache) == measure_children(children.take(count), cache),
    decreases children.len() - count,
{
    if count == children.len() {
        assert(children.take(count) =~= children);
    } else {
        let next = children.take(count + 1);
        assert(next.drop_last() =~= children.take(count));
        lemma_measure_children_fails_on(children, count + 1, cache);
    }
}

/// Where a component goes: after the sibling before it, in the direction
/// of its parent, and moved by its own margin. In a row it stands to the
/// right of the sibling, at the sibling's height; in a column it stands
/// below the sibling, at the sibling's left side. It fails where the place
/// has no coordinates.
pub open spec fn place(
    parent_align: ComponentAlign,
    sibling_render_params: RenderParams,
    sibling_style: ComponentStyle,
    style: ComponentStyle,
) -> Result<RenderParams, GeometryError> {
    let x = match parent_align {
        ComponentAlign::Row => sibling_render_params.x + sibling_style.width + style.margin.left
            + sibling_style.padding.spec_horizontal(),
        ComponentAlign::Column => sibling_render_params.x + style.margin.left,
    };
    let y = match parent_align {
        ComponentAlign::Row => sibling_render_params.y + style.margin.top,
        ComponentAlign::Column => sibling_render_params.y + style.margin.top
            + sibling_style.height + sibling_style.padding.spec_vertical(),
    };
    if x > i64::MAX || y > i64::MAX {
        Err(GeometryError::Overflow)
    } else {
        Ok(RenderParams { x: x as i64, y: y as i64 })
    }
}

/// Where the content of a component starts: at its own place, moved by its
/// padding left and above.
pub open spec fn content_origin(render_params: RenderParams, style: ComponentStyle) -> Result<
    RenderParams,
    GeometryError,
> {
    if render_params.x + style.padding.left > i64::MAX || render_params.y + style.padding.top
        > i64::MAX {
        Err(GeometryError::Overflow)
    } else {
        Ok(
            RenderParams {
                x: (render_params.x + style.padding.left) as i64,
                y: (render_params.y + style.padding.top) as i64,
            },
        )
    }
}

/// The outcome of drawing one component.
pub struct Drawn {
    /// Where the component was placed.
    pub render_params: RenderParams,
    /// What it and the components below it paint, in the order in which
    /// the commands are issued.
    pub commands: Seq<DrawCommand>,
    /// The styles remembered afterwards.
    pub cache: StyleMap,
}

/// The outcome of drawing the children of a component.
pub struct DrawnChildren {
    /// Where the last child was placed; where there is no child, where the
    /// content of the parent starts.
    pub cursor: RenderParams,
    /// The resolved style of the last child; where there is no child, the
    /// style of no size.
    pub sibling_style: ComponentStyle,
    /// What the children paint, first child first.
    pub commands: Seq<DrawCommand>,
    /// The styles remembered afterwards.
    pub cache: StyleMap,
}

/// Draws a component: the second pass of a render.
///
/// The component is resolved against its parent and placed after its
/// sibling. A component that is not there ends here: it paints nothing, and
/// nothing below it is looked at. Else it paints itself, where it draws
/// itself, and then its children are drawn from first to last, the first
/// where its content starts.
pub open spec fn draw_component(
    component: ComponentView,
    scene: Scene,
    sibling_render_params: RenderParams,
    parent_style: ComponentStyle,
    sibling_style: ComponentStyle,
    cache: StyleMap,
) -> Result<Drawn, GeometryError>
    decreases component, 1nat,
{
    match measure(component, Some(parent_style), cache) {
        Err(error) => Err(error),
        Ok(measured) => match place(
            parent_style.align,
            sibling_render_params,
            sibling_style,
            measured.style,
        ) {
            Err(error) => Err(error),
            Ok(render_params) => if !component.render_condition {
                Ok(Drawn { render_params, commands: Seq::empty(), cache: measured.cache })
            } else {
                match (if component.self_render_condition {
                    paint(component.painter, scene, render_params, measured.style, parent_style)
                } else {
                    Ok(Seq::empty())
                }) {
                    Err(error) => Err(error),
                    Ok(own) => match content_origin(render_params, measured.style) {
                        Err(error) => Err(error),
                        Ok(origin) => match draw_children(
                            component.children,
                            scene,
                            origin,
                            measured.style,
                            measured.cache,
                        ) {
                            Err(error) => Err(error),
                            Ok(children) => Ok(
                                Drawn {
                                    render_params,
                                    commands: own + children.commands,
                                    cache: children.cache,
                                },
                            ),
                        },
                    },
                }
            },
        },
    }
}

/// Draws the given components from first to last inside a parent that was
/// resolved to `parent_style` and whose content starts at `origin`. Each is
/// placed after the one before it; the first is placed after a sibling of
/// no size at `origin`.
pub open spec fn draw_children(
    children: Seq<ComponentView>,
    scene: Scene,
    origin: RenderParams,
    parent_style: ComponentStyle,
    cache: StyleMap,
) -> Result<DrawnChildren, GeometryError>
    decreases children, 0nat,
{
    if children.len() == 0 {
        Ok(
            DrawnChildren {
                cursor: origin,
                sibling_style: ComponentStyle::zero(),
                commands: Seq::empty(),
                cache,
            },
        )
    } else {
        match draw_children(children.drop_last(), scene, origin, parent_style, cache) {
            Err(error) => Err(error),
            Ok(before) => match draw_component(
                children.last(),
                scene,
                before.cursor,
                parent_style,
                before.sibling_style,
                before.cache,
            ) {
                Err(error) => Err(error),
                Ok(drawn) => match measure(children.last(), Some(parent_style), drawn.cache) {
                    Err(error) => Err(error),
                    Ok(measured) => Ok(
                        DrawnChildren {
                            cursor: drawn.render_params,
                            sibling_style: measured.style,
                            commands: before.commands + drawn.commands,
                            cache: measured.cache,
                        },
                    ),
                },
            },
        }
    }
}

/// Where drawing the first `count` of the given components fails, so does
/// drawing all of them, and with the same error.
pub proof fn lemma_draw_children_fails_on(
    children: Seq<ComponentView>,
    count: int,
    scene: Scene,
    origin: RenderParams,
    parent_style: ComponentStyle,
    cache: StyleMap,
)
    requires
        0 <= count <= children.len(),
        draw_children(children.take(count), scene, origin, parent_style, cache) is Err,
    ensures
        draw_children(children, scene, origin, parent_style, cache) == draw_children(
            children.take(count),
            scene,
            origin,
            parent_style,
            cache,
        ),
    decreases children.len() - count,
{
    if count == children.len() {
        assert(children.take(count) =~= children);
    } else {
        assert(children.take(count + 1).drop_last() =~= children.take(count));
        lemma_draw_children_fails_on(children, count + 1, scene, origin, parent_style, cache);
    }
}

/// The commands that drawing a component issues whether or not it
/// succeeds: where it succeeds, all commands of the component and of what
/// is below it; where it fails, the commands that were issued before the
/// failure.
pub open spec fn issued_component(
    component: ComponentView,
    scene: Scene,
    sibling_render_params: RenderParams,
    parent_style: ComponentStyle,
    sibling_style: ComponentStyle,
    cache: StyleMap,
) -> Seq<DrawCommand>
    decreases component, 1nat,
{
    match measure(component, Some(parent_style), cache) {
        Err(_) => Seq::empty(),
        Ok(measured) => match place(
            parent_style.align,
            sibling_render_params,
            sibling_style,
            measured.style,
        ) {
            Err(_) => Seq::empty(),
            Ok(render_params) => if !component.render_condition {
                Seq::empty()
            } else {
                let own = if component.self_render_condition {
                    painted(component.painter, scene, render_params, measured.style, parent_style)
                } else {
                    Seq::empty()
                };
                if component.self_render_condition && paint(
                    component.painter,
                    scene,
                    render_params,
                    measured.style,
                    parent_style,
                ) is Err {
                    own
                } else {
                    match content_origin(render_params, measured.style) {
                        Err(_) => own,
                        Ok(origin) => own + issued_children(
                            component.children,
                            scene,
                            origin,
                            measured.style,
                            measured.cache,
                        ),
                    }
                }
            },
        },
    }
}

/// The commands that drawing the given components issues whether or not
/// it succeeds: the commands of the children before the first that fails,
/// and what that child issued before it failed.
pub open spec fn issued_children(
    children: Seq<ComponentView>,
    scene: Scene,
    origin: RenderParams,
    parent_style: ComponentStyle,
    cache: StyleMap,
) -> Seq<DrawCommand>
    decreases children, 0nat,
{
    if children.len() == 0 {
        Seq::empty()
    } else {
        match draw_children(children.drop_last(), scene, origin, parent_style, cache) {
            Err(_) => issued_children(children.drop_last(), scene, origin, parent_style, cache),
            Ok(before) => before.commands + issued_component(
                children.last(),
                scene,
                before.cursor,
                parent_style,
                before.sibling_style,
                before.cache,
            ),
        }
    }
}

/// Where drawing a component succeeds, what it issues is what it draws.
pub proof fn lemma_issued_component(
    component: ComponentView,
    scene: Scene,
    sibling_render_params: RenderParams,
    parent_style: ComponentStyle,
    sibling_style: ComponentStyle,
    cache: StyleMap,
)
    requires
        draw_component(
            component,
            scene,
            sibling_render_params,
            parent_style,
            sibling_style,
            cache,
        ) is Ok,
    ensures
        issued_component(
            component,
            scene,
            sibling_render_params,
            parent_style,
            sibling_style,
            cache,
        ) == draw_component(
            component,
            scene,
            sibling_render_params,
            parent_style,
            sibling_style,
            cache,
        ).unwrap().commands,
    decreases component, 1nat,
{
    let measured = measure(component, Some(parent_style), cache).unwrap();
    let render_params = place(
        parent_style.align,
        sibling_render_params,
        sibling_style,
        measured.style,
    ).unwrap();
    if component.render_condition {
        if component.self_render_condition {
            lemma_painted(component.painter, scene, render_params, measured.style, parent_style);
        }
        let origin = content_origin(render_params, measured.style).unwrap();
        lemma_issued_children(component.children, scene, origin, measured.style, measured.cache);
    }
}

/// Where drawing the given components succeeds, what it issues is what
/// it draws.
pub proof fn lemma_issued_children(
    children: Seq<ComponentView>,
    scene: Scene,
    origin: RenderParams,
    parent_style: ComponentStyle,
    cache: StyleMap,
)
    requires
        draw_children(children, scene, origin, parent_style, cache) is Ok,
    ensures
        issued_children(children, scene, origin, parent_style, cache) == draw_children(
            children,
            scene,
            origin,
            parent_style,
            cache,
        ).unwrap().commands,
    decreases children, 0nat,
{
    if children.len() > 0 {
        let before = draw_children(children.drop_last(), scene, origin, parent_style, cache).unwrap();
        lemma_issued_component(
            children.last(),
            scene,
            before.cursor,
            parent_style,
            before.sibling_style,
            before.cache,
        );
    }
}

/// Where drawing the first `count` of the given components fails, what
/// drawing all of them issues is what drawing the first `count` issues.
pub proof fn lemma_issued_children_until_failure(
    children: Seq<ComponentView>,
    count: int,
    scene: Scene,
    origin: RenderParams,
    parent_style: ComponentStyle,
    cache: StyleMap,
)
    requires
        0 <= count <= children.len(),
        draw_children(children.take(count), scene, origin, parent_style, cache) is Err,
    ensures
        issued_children(children, scene, origin, parent_style, cache) == issued_children(
            children.take(count),
            scene,
            origin,
            parent_style,
            cache,
        ),
    decreases children.len() - count,
{
    if count == children.len() {
        assert(children.take(count) =~= children);
    } else {
        assert(children.take(count + 1).drop_last() =~= children.take(count));
        lemma_issued_children_until_failure(
            children,
            count + 1,
            scene,
            origin,
            parent_style,
            cache,
        );
    }
}

impl ComponentRenderParams {
    /// The place of a component with the resolved style `style`.
    pub fn parse_into_render_params_with_style(
        &self,
        parent_style: &ComponentStyle,
        sibling_style: &ComponentStyle,
        style: &ComponentStyle,
    ) -> (render_params: Result<RenderParams, GeometryError>)
        ensures
            render_params == place(
                parent_style.align,
                self.sibling_render_params,
                *sibling_style,
                *style,
            ),
    {
        let sibling_x: i128 = self.sibling_render_params.x as i128;
        let sibling_y: i128 = self.sibling_render_params.y as i128;
        let (x, y): (i128, i128) = match parent_style.align {
            ComponentAlign::Row => (
                sibling_x + sibling_style.width as i128 + style.margin.left as i128
                    + sibling_style.padding.horizontal() as i128,
                sibling_y + style.margin.top as i128,
            ),
            ComponentAlign::Column => (
                sibling_x + style.margin.left as i128,
                sibling_y + style.margin.top as i128 + sibling_style.height as i128
                    + sibling_style.padding.vertical() as i128,
            ),
        };
        if x > i64::MAX as i128 || y > i64::MAX as i128 {
            Err(GeometryError::Overflow)
        } else {
            Ok(RenderParams { x: x as i64, y: y as i64 })
        }
    }
}

impl Component {
    /// Issues the commands with which the component paints itself. After a
    /// failure the canvas holds what it held and, of highlights, the
    /// rectangles before the one that failed.
    pub fn draw_self(
        &self,
        canvas: &mut Canvas,
        context: &ComponentContext,
        render_params: &RenderParams,
        style: &ComponentStyle,
        parent_style: &ComponentStyle,
    ) -> (done: Result<(), GeometryError>)
        ensures
            match paint(
                self.painter@,
                scene_of(context, old(canvas)),
                *render_params,
                *style,
                *parent_style,
            ) {
                Ok(commands) => done is Ok && final(canvas).commands() == old(canvas).commands()
                    + commands,
                Err(error) => done == Err::<(), GeometryError>(error),
            },
            final(canvas).commands() == old(canvas).commands() + painted(
                self.painter@,
                scene_of(context, old(canvas)),
                *render_params,
                *style,
                *parent_style,
            ),
            final(canvas).spec_width() == old(canvas).spec_width(),
            final(canvas).spec_height() == old(canvas).spec_height(),
            final(canvas).spec_scale_factor() == old(canvas).spec_scale_factor(),
    {
        proof {
            if paint(
                self.painter@,
                scene_of(context, old(canvas)),
                *render_params,
                *style,
                *parent_style,
            ) is Ok {
                lemma_painted(
                    self.painter@,
                    scene_of(context, old(canvas)),
                    *render_params,
                    *style,
                    *parent_style,
                );
            }
            assert(old(canvas).commands() + Seq::<DrawCommand>::empty() =~= old(
                canvas,
            ).commands());
        }
        match &self.painter {
            Painter::Nothing => {
                assert(canvas.commands() + Seq::<DrawCommand>::empty() =~= canvas.commands());
                Ok(())
            },
            Painter::Background => {
                let width: u32 = canvas.width();
                let height: u32 = canvas.height();
                let fill = match context.background {
                    BackgroundPaint::Solid(color) => CanvasFill::Solid(color),
                    BackgroundPaint::Gradient { start, end } => {
                        let start = start.into_f32_point(width, height);
                        let end = end.into_f32_point(width, height);
                        CanvasFill::LinearGradient {
                            start_x: start.x,
                            start_y: start.y,
                            end_x: end.x,
                            end_y: end.y,
                        }
                    },
                };
                canvas.push(DrawCommand::FillCanvas(fill));
                assert(canvas.commands() =~= old(canvas).commands() + seq![
                    DrawCommand::FillCanvas(fill),
                ]);
                Ok(())
            },
            Painter::Rect { radius, color, shadow } => draw_rect(
                canvas,
                *radius,
                *color,
                shadow,
                &context.background_padding,
                render_params,
                style,
            ),
            Painter::HighlightCodeBlock {
                highlight_lines,
                editor_padding,
                code_line_count,
            } => draw_highlight_lines(
                canvas,
                highlight_lines,
                render_params.x,
                render_params.y,
                parent_style.width,
                editor_padding.left,
                *code_line_count,
            ),
            Painter::MacTitleBar => draw_control_buttons(canvas, render_params),
            Painter::Text(role) => {
                let command = DrawCommand::Text {
                    role: *role,
                    x: render_params.x,
                    y: render_params.y,
                };
                canvas.push(command);
                assert(canvas.commands() =~= old(canvas).commands() + seq![command]);
                Ok(())
            },
            Painter::CenteredLine(role) => {
                let command = DrawCommand::CenteredLine { role: *role, y: render_params.y };
                canvas.push(command);
                assert(canvas.commands() =~= old(canvas).commands() + seq![command]);
                Ok(())
            },
        }
    }

    /// Draws the component and everything below it: the second pass.
    ///
    /// Returns where the component was placed. The commands are issued on
    /// the canvas. After a failure the canvas holds what it held and the
    /// commands that were issued before the failure, and no more.
    pub fn draw(
        &self,
        canvas: &mut Canvas,
        context: &mut ComponentContext,
        component_render_params: ComponentRenderParams,
        parent_style: ComponentStyle,
        sibling_style: ComponentStyle,
    ) -> (drawn: Result<RenderParams, GeometryError>)
        requires
            old(context).style_map.well_formed(),
        ensures
            final(context).style_map.well_formed(),
            final(context).same_render(old(context)),
            final(canvas).spec_width() == old(canvas).spec_width(),
            final(canvas).spec_height() == old(canvas).spec_height(),
            final(canvas).spec_scale_factor() == old(canvas).spec_scale_factor(),
            match draw_component(
                self@,
                scene_of(old(context), old(canvas)),
                component_render_params.sibling_render_params,
                parent_style,
                sibling_style,
                old(context).style_map@,
            ) {
                Ok(outcome) => {
                    &&& drawn == Ok::<RenderParams, GeometryError>(outcome.render_params)
                    &&& final(canvas).commands() == old(canvas).commands() + outcome.commands
                    &&& final(context).style_map@ == outcome.cache
                },
                Err(error) => drawn == Err::<RenderParams, GeometryError>(error),
            },
            final(canvas).commands() == old(canvas).commands() + issued_component(
                self@,
                scene_of(old(context), old(canvas)),
                component_render_params.sibling_render_params,
                parent_style,
                sibling_style,
                old(context).style_map@,
            ),
            drawn is Ok && !self.render_condition ==> final(canvas).commands() == old(
                canvas,
            ).commands(),
        decreases self, 1nat,
    {
        let ghost scene = scene_of(old(context), old(canvas));
        assert(old(canvas).commands() + Seq::<DrawCommand>::empty() =~= old(canvas).commands());
        let style = match self.parsed_style(Some(&parent_style), context) {
            Ok(style) => style,
            Err(error) => {
                return Err(error);
            },
        };
        let render_params = match component_render_params.parse_into_render_params_with_style(
            &parent_style,
            &sibling_style,
            &style,
        ) {
            Ok(render_params) => render_params,
            Err(error) => {
                return Err(error);
            },
        };
        // Nothing is painted for a component that is not there.

        if !self.render_condition {
            return Ok(render_params);
        }
        if self.self_render_condition {
            match self.draw_self(canvas, context, &render_params, &style, &parent_style) {
                Ok(()) => {},
                Err(error) => {
                    return Err(error);
                },
            }
        }
        let ghost own = if self.self_render_condition {
            painted(self.painter@, scene, render_params, style, parent_style)
        } else {
            Seq::<DrawCommand>::empty()
        };
        proof {
            if self.self_render_condition {
                lemma_painted(self.painter@, scene, render_params, style, parent_style);
            }
        }
        assert(canvas.commands() == old(canvas).commands() + own);
        let origin_x: i128 = render_params.x as i128 + style.padding.left as i128;
        let origin_y: i128 = render_params.y as i128 + style.padding.top as i128;
        if origin_x > i64::MAX as i128 || origin_y > i64::MAX as i128 {
            return Err(GeometryError::Overflow);
        }
        let origin = RenderParams { x: origin_x as i64, y: origin_y as i64 };
        let ghost measured_cache = context.style_map@;
        let done = self.draw_children(canvas, context, &render_params, origin, style);
        proof {
            let below = issued_children(self@.children, scene, origin, style, measured_cache);
            assert(canvas.commands() =~= old(canvas).commands() + (own + below));
            if done is Ok {
                lemma_issued_children(self@.children, scene, origin, style, measured_cache);
            }
        }
        match done {
            Ok(()) => Ok(render_params),
            Err(error) => Err(error),
        }
    }

    /// Draws the children of the component, which was placed at
    /// `render_params` and resolved to `style`, from first to last. After a
    /// failure the canvas holds what it held and the commands that were
    /// issued before the failure, and no more.
    pub fn draw_children(
        &self,
        canvas: &mut Canvas,
        context: &mut ComponentContext,
        render_params: &RenderParams,
        origin: RenderParams,
        style: ComponentStyle,
    ) -> (done: Result<(), GeometryError>)
        requires
            old(context).style_map.well_formed(),
        ensures
            final(context).style_map.well_formed(),
            final(context).same_render(old(context)),
            final(canvas).spec_width() == old(canvas).spec_width(),
            final(canvas).spec_height() == old(canvas).spec_height(),
            final(canvas).spec_scale_factor() == old(canvas).spec_scale_factor(),
            match draw_children(
                self@.children,
                scene_of(old(context), old(canvas)),
                origin,
                style,
                old(context).style_map@,
            ) {
                Ok(outcome) => {
                    &&& done is Ok
                    &&& final(canvas).commands() == old(canvas).commands() + outcome.commands
                    &&& final(context).style_map@ == outcome.cache
                },
                Err(error) => done == Err::<(), GeometryError>(error),
            },
            final(canvas).commands() == old(canvas).commands() + issued_children(
                self@.children,
                scene_of(old(context), old(canvas)),
                origin,
                style,
                old(context).style_map@,
            ),
        decreases self, 0nat,
    {
        let ghost scene = scene_of(old(context), old(canvas));
        let ghost cache = old(context).style_map@;
        let mut sibling_render_params = origin;
        let mut sibling_style = ComponentStyle::default();
        let ghost mut issued: Seq<DrawCommand> = Seq::empty();
        let count: usize = self.children.len();
        let mut index: usize = 0;
        proof {
            lemma_components_view(self.children@);
        }
        assert(self@.children.take(0) =~= Seq::<ComponentView>::empty());
        assert(canvas.commands() =~= old(canvas).commands() + issued);
        while index < count
            invariant
                index <= count,
                count == self.children@.len(),
                self@.children.len() == count,
                forall|i: int| 0 <= i < count ==> #[trigger] self@.children[i] == self.children@[i]@,
                context.style_map.well_formed(),
                context.same_render(old(context)),
                canvas.spec_width() == old(canvas).spec_width(),
                canvas.spec_height() == old(canvas).spec_height(),
                canvas.spec_scale_factor() == old(canvas).spec_scale_factor(),
                scene == scene_of(old(context), old(canvas)),
                cache == old(context).style_map@,
                draw_children(self@.children.take(index as int), scene, origin, style, cache) == Ok::<
                    DrawnChildren,
                    GeometryError,
                >(
                    DrawnChildren {
                        cursor: sibling_render_params,
                        sibling_style,
                        commands: issued,
                        cache: context.style_map@,
                    },
                ),
                canvas.commands() == old(canvas).commands() + issued,
            decreases count - index,
        {
            proof {
                assert(self@.children.take(index + 1).drop_last() =~= self@.children.take(
                    index as int,
                ));
                assert(self@.children.take(index + 1).last() == self.children@[index as int]@);
                assert(scene_of(context, canvas) == scene);
            }
            let ghost outcome = draw_component(
                self.children@[index as int]@,
                scene,
                sibling_render_params,
                style,
                sibling_style,
                context.style_map@,
            );
            let ghost issued_here = issued_component(
                self.children@[index as int]@,
                scene,
                sibling_render_params,
                style,
                sibling_style,
                context.style_map@,
            );
            let child = &self.children[index];
            let placed = match child.draw(
                canvas,
                context,
                ComponentRenderParams {
                    parent_render_params: *render_params,
                    sibling_render_params,
                },
                style,
                sibling_style,
            ) {
                Ok(placed) => placed,
                Err(error) => {
                    proof {
                        lemma_draw_children_fails_on(
                            self@.children,
                            index + 1,
                            scene,
                            origin,
                            style,
                            cache,
                        );
                        lemma_issued_children_until_failure(
                            self@.children,
                            index + 1,
                            scene,
                            origin,
                            style,
                            cache,
                        );
                        assert(canvas.commands() =~= old(canvas).commands() + (issued
                            + issued_here));
                    }
                    return Err(error);
                },
            };
            let child_style = match child.parsed_style(Some(&style), context) {
                Ok(child_style) => child_style,
                Err(error) => {
                    proof {
                        lemma_draw_children_fails_on(
                            self@.children,
                            index + 1,
                            scene,
                            origin,
                            style,
                            cache,
                        );
                        lemma_issued_children_until_failure(
                            self@.children,
                            index + 1,
                            scene,
                            origin,
                            style,
                            cache,
                        );
                        assert(canvas.commands() =~= old(canvas).commands() + (issued
                            + issued_here));
                    }
                    return Err(error);
                },
            };
            proof {
                assert(canvas.commands() =~= old(canvas).commands() + (issued
                    + outcome.unwrap().commands));
                issued = issued + outcome.unwrap().commands;
            }
            sibling_render_params = placed;
            sibling_style = child_style;
            index = index + 1;
        }
        assert(self@.children.take(count as int) =~= self@.children);
        proof {
            lemma_issued_children(self@.children, scene, origin, style, cache);
        }
        Ok(())
    }
}

/// The views of two sequences of components in a row are the views of
/// the one followed by the views of the other.
pub proof fn lemma_components_view_concat(first: Seq<Component>, second: Seq<Component>)
    ensures
        components_view(first + second) == components_view(first) + components_view(second),
{
    lemma_components_view(first);
    lemma_components_view(second);
    lemma_components_view(first + second);
    assert(components_view(first + second) =~= components_view(first) + components_view(second));
}

/// A list of two children.
pub fn two_children(first: Component, second: Component) -> (children: Vec<Component>)
    ensures
        components_view(children@) == seq![first@, second@],
{
    let mut children: Vec<Component> = Vec::new();
    children.push(first);
    children.push(second);
    proof {
        lemma_components_view(children@);
        assert(components_view(children@) =~= seq![first@, second@]);
    }
    children
}

/// A list of three children.
pub fn three_children(first: Component, second: Component, third: Component) -> (children: Vec<
    Component,
>)
    ensures
        components_view(children@) == seq![first@, second@, third@],
{
    let mut children: Vec<Component> = Vec::new();
    children.push(first);
    children.push(second);
    children.push(third);
    proof {
        lemma_components_view(children@);
        assert(components_view(children@) =~= seq![first@, second@, third@]);
    }
    children
}

/// A list of children: one component and, after it, the given ones.
pub fn prepend_child(first: Component, rest: Vec<Component>) -> (children: Vec<Component>)
    ensures
        components_view(children@) == seq![first@] + components_view(rest@),
{
    let mut children: Vec<Component> = Vec::new();
    let mut rest = rest;
    let ghost rest_view = rest@;
    children.push(first);
    let ghost head = children@;
    children.append(&mut rest);
    proof {
        assert(children@ =~= head + rest_view);
        lemma_components_view_concat(head, rest_view);
        lemma_components_view(head);
        assert(components_view(head) =~= seq![first@]);
    }
    children
}

} // verus!
