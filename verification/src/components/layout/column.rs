use crate::components::interface::component::Component;
use crate::components::interface::component::ComponentName;
use crate::components::interface::component::ComponentView;
use crate::components::interface::component::Painter;
use crate::components::interface::component::PainterView;
use crate::components::interface::component::components_view;
use crate::components::interface::style::ComponentAlign;
use crate::components::interface::style::RawComponentStyle;
use crate::components::interface::style::Style;
use vstd::prelude::*;

verus! {

/// Lays its children out one below the other, from top to bottom.
pub struct Column {
    pub children: Vec<Component>,
}

/// The node of a column with the given children.
pub open spec fn column_view(children: Seq<ComponentView>) -> ComponentView {
    ComponentView {
        name: ComponentName::Stub,
        render_condition: true,
        self_render_condition: true,
        style: (RawComponentStyle {
            align: ComponentAlign::Column,
            ..RawComponentStyle::spec_default()
        }),
        painter: PainterView::Nothing,
        children,
    }
}

impl Column {
    /// The node that stands for the container in a tree.
    pub open spec fn spec_component(self) -> ComponentView {
        column_view(components_view(self.children@))
    }

    pub fn from_children(children: Vec<Component>) -> (container: Column)
        ensures
            container.children == children,
    {
        Column { children }
    }

    pub fn into_component(self) -> (component: Component)
        ensures
            component@ == self.spec_component(),
    {
        Component {
            name: ComponentName::Stub,
            render_condition: true,
            self_render_condition: true,
            style: Style::default().align(ComponentAlign::Column),
            painter: Painter::Nothing,
            children: self.children,
        }
    }
}

} // verus!
