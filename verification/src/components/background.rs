use super::interface::component::Component;
use super::interface::component::ComponentName;
use super::interface::component::ComponentView;
use super::interface::component::Painter;
use super::interface::component::PainterView;
use super::interface::component::components_view;
use super::interface::style::ComponentAlign;
use super::interface::style::RawComponentStyle;
use super::interface::style::Style;
use crate::edges::edge::Edge;
use crate::edges::padding::Padding;
use vstd::prelude::*;

verus! {

/// What lies behind the window: it fills the whole canvas and holds the
/// window at a distance from the sides of the canvas.
pub struct Background {
    pub children: Vec<Component>,
    pub padding: Padding,
}

/// The node of a background with the given padding and children. Without
/// padding it does not draw itself and only lays out its children, one below
/// the other.
pub open spec fn background_view(padding: Padding, children: Seq<ComponentView>) -> ComponentView {
    ComponentView {
        name: ComponentName::Background,
        render_condition: true,
        self_render_condition: Background::spec_has_background(&padding),
        style: (RawComponentStyle {
            align: ComponentAlign::Column,
            padding,
            ..RawComponentStyle::spec_default()
        }),
        painter: PainterView::Background,
        children,
    }
}

impl Background {
    /// There is a background to see: the padding is not zero both ways.
    pub open spec fn spec_has_background(padding: &Padding) -> bool {
        padding.spec_horizontal() != 0 || padding.spec_vertical() != 0
    }

    /// The node that stands for the background in a tree.
    pub open spec fn spec_component(self) -> ComponentView {
        background_view(self.padding, components_view(self.children@))
    }

    pub fn new(padding: Padding, children: Vec<Component>) -> (background: Background)
        ensures
            background.padding == padding,
            background.children == children,
    {
        Background { children, padding }
    }

    pub fn has_background(padding: &Padding) -> (visible: bool)
        ensures
            visible == Self::spec_has_background(padding),
    {
        padding.horizontal() != 0 || padding.vertical() != 0
    }

    pub fn into_component(self) -> (component: Component)
        ensures
            component@ == self.spec_component(),
    {
        Component {
            name: ComponentName::Background,
            render_condition: true,
            self_render_condition: Self::has_background(&self.padding),
            style: Style::default().align(ComponentAlign::Column).padding(self.padding),
            painter: Painter::Background,
            children: self.children,
        }
    }
}

} // verus!
