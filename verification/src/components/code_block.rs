use super::interface::component::Component;
use super::interface::component::ComponentName;
use super::interface::component::ComponentView;
use super::interface::component::Painter;
use super::interface::component::PainterView;
use super::interface::component::components_view;
use super::interface::style::RawComponentStyle;
use super::interface::style::Size;
use super::interface::style::Style;
use vstd::prelude::*;

verus! {

/// The block that holds the highlights, the line numbers and the code,
/// side by side. It is as wide as its parent and as high as its children.
pub struct CodeBlock {
    pub children: Vec<Component>,
}

/// The node of a code block with the given children.
pub open spec fn code_block_view(children: Seq<ComponentView>) -> ComponentView {
    ComponentView {
        name: ComponentName::CodeBlock,
        render_condition: true,
        self_render_condition: true,
        style: (RawComponentStyle {
            width: Size::Inherit,
            height: Size::Dynamic,
            ..RawComponentStyle::spec_default()
        }),
        painter: PainterView::Nothing,
        children,
    }
}

impl CodeBlock {
    /// The node that stands for the block in a tree.
    pub open spec fn spec_component(self) -> ComponentView {
        code_block_view(components_view(self.children@))
    }

    pub fn from_children(children: Vec<Component>) -> (block: CodeBlock)
        ensures
            block.children == children,
    {
        CodeBlock { children }
    }

    pub fn into_component(self) -> (component: Component)
        ensures
            component@ == self.spec_component(),
    {
        Component {
            name: ComponentName::CodeBlock,
            render_condition: true,
            self_render_condition: true,
            style: Style::default().size(Size::Inherit, Size::Dynamic),
            painter: Painter::Nothing,
            children: self.children,
        }
    }
}

} // verus!
