use super::interface::canvas::Canvas;
use super::interface::canvas::DrawCommand;
use super::interface::canvas::raster_size;
use super::interface::component::BackgroundPaint;
use super::interface::component::Component;
use super::interface::component::ComponentContext;
use super::interface::component::ComponentName;
use super::interface::component::ComponentRenderParams;
use super::interface::component::ComponentView;
use super::interface::component::Painter;
use super::interface::component::PainterView;
use super::interface::component::RenderParams;
use super::interface::component::Scene;
use super::interface::component::StyleMap;
use super::interface::component::components_view;
use super::interface::component::draw_component;
use super::interface::component::measure;
use super::interface::render_error::GeometryError;
use super::interface::style::ComponentStyle;
use super::interface::style::RawComponentStyle;
use super::interface::style::Style;
use crate::edges::padding::Padding;
use vstd::prelude::*;

verus! {

/// The root of a tree: it holds what is drawn and draws it on a canvas of
/// its own size.
pub struct Container {
    pub children: Vec<Component>,
}

/// The outcome of a render.
pub struct Rendered {
    /// The size of the raster in pixels.
    pub width: u32,
    pub height: u32,
    /// The commands that paint the raster, in the order in which they were
    /// issued.
    pub commands: Seq<DrawCommand>,
    /// The styles remembered at the end.
    pub cache: StyleMap,
}

/// Renders a tree. The tree is measured once, without a parent; the raster
/// gets the size the root was resolved to, times the scale factor; then the
/// tree is drawn once, the root at the upper left corner of the canvas.
pub open spec fn render(
    root: ComponentView,
    scale_factor: u8,
    background: BackgroundPaint,
    background_padding: Padding,
    cache: StyleMap,
) -> Result<Rendered, GeometryError> {
    match measure(root, None, cache) {
        Err(error) => Err(error),
        Ok(measured) => match raster_size(
            measured.style.width,
            measured.style.height,
            scale_factor,
        ) {
            Err(error) => Err(error),
            Ok((width, height)) => match draw_component(
                root,
                Scene { background, background_padding, canvas_width: width, canvas_height: height },
                RenderParams { x: 0, y: 0 },
                ComponentStyle::zero(),
                ComponentStyle::zero(),
                measured.cache,
            ) {
                Err(error) => Err(error),
                Ok(drawn) => Ok(
                    Rendered { width, height, commands: drawn.commands, cache: drawn.cache },
                ),
            },
        },
    }
}

impl Component {
    /// Renders the tree below and with this component on a canvas of its
    /// own. A render that fails leaves no canvas.
    pub fn draw_root(&self, context: &mut ComponentContext) -> (canvas: Result<
        Canvas,
        GeometryError,
    >)
        requires
            old(context).style_map.well_formed(),
        ensures
            final(context).style_map.well_formed(),
            final(context).same_render(old(context)),
            match render(
                self@,
                old(context).scale_factor,
                old(context).background,
                old(context).background_padding,
                old(context).style_map@,
            ) {
                Ok(rendered) => {
                    &&& canvas is Ok
                    &&& canvas.unwrap().spec_width() == rendered.width
                    &&& canvas.unwrap().spec_height() == rendered.height
                    &&& canvas.unwrap().spec_scale_factor() == old(context).scale_factor
                    &&& canvas.unwrap().commands() == rendered.commands
                    &&& final(context).style_map@ == rendered.cache
                },
                Err(error) => canvas == Err::<Canvas, GeometryError>(error),
            },
    {
        let style = match self.parsed_style(None, context) {
            Ok(style) => style,
            Err(error) => {
                return Err(error);
            },
        };
        let mut canvas = match Canvas::new(style.width, style.height, context.scale_factor) {
            Ok(canvas) => canvas,
            Err(error) => {
                return Err(error);
            },
        };
        match self.draw(
            &mut canvas,
            context,
            ComponentRenderParams {
                parent_render_params: RenderParams { x: 0, y: 0 },
                sibling_render_params: RenderParams { x: 0, y: 0 },
            },
            ComponentStyle::default(),
            ComponentStyle::default(),
        ) {
            Ok(_) => {},
            Err(error) => {
                return Err(error);
            },
        }
        proof {
            let rendered = render(
                self@,
                old(context).scale_factor,
                old(context).background,
                old(context).background_padding,
                old(context).style_map@,
            ).unwrap();
            assert(canvas.commands() =~= rendered.commands);
        }
        Ok(canvas)
    }
}

/// The node of a container with the given children.
pub open spec fn container_view(children: Seq<ComponentView>) -> ComponentView {
    ComponentView {
        name: ComponentName::Stub,
        render_condition: true,
        self_render_condition: true,
        style: RawComponentStyle::spec_default(),
        painter: PainterView::Nothing,
        children,
    }
}

impl Container {
    /// The node that stands for the container in a tree.
    pub open spec fn spec_component(self) -> ComponentView {
        container_view(components_view(self.children@))
    }

    pub fn from_children(children: Vec<Component>) -> (container: Container)
        ensures
            container.children == children,
    {
        Container { children }
    }

    pub fn into_component(self) -> (component: Component)
        ensures
            component@ == self.spec_component(),
    {
        Component {
            name: ComponentName::Stub,
            render_condition: true,
            self_render_condition: true,
            style: Style::default(),
            painter: Painter::Nothing,
            children: self.children,
        }
    }

    /// Renders what the container holds on a canvas of its own.
    pub fn draw_root(self, context: &mut ComponentContext) -> (canvas: Result<Canvas, GeometryError>)
        requires
            old(context).style_map.well_formed(),
        ensures
            final(context).style_map.well_formed(),
            final(context).same_render(old(context)),
            match render(
                self.spec_component(),
                old(context).scale_factor,
                old(context).background,
                old(context).background_padding,
                old(context).style_map@,
            ) {
                Ok(rendered) => {
                    &&& canvas is Ok
                    &&& canvas.unwrap().spec_width() == rendered.width
                    &&& canvas.unwrap().spec_height() == rendered.height
                    &&& canvas.unwrap().spec_scale_factor() == old(context).scale_factor
                    &&& canvas.unwrap().commands() == rendered.commands
                    &&& final(context).style_map@ == rendered.cache
                },
                Err(error) => canvas == Err::<Canvas, GeometryError>(error),
            },
    {
        let root = self.into_component();
        root.draw_root(context)
    }
}

} // verus!
