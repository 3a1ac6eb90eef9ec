use crate::components::interface::canvas::TextRole;
use crate::components::interface::component::Component;
use crate::components::interface::component::ComponentName;
use crate::components::interface::component::ComponentView;
use crate::components::interface::component::Painter;
use crate::components::interface::component::PainterView;
use crate::components::interface::style::RawComponentStyle;
use crate::components::interface::style::Size;
use crate::components::interface::style::Style;
use vstd::prelude::*;

verus! {

/// The highlighted code. Its size is what the font renderer measured for
/// its text.
pub struct Code {
    pub width: u32,
    pub height: u32,
}

impl Code {
    /// The node that stands for the code in a tree.
    pub open spec fn spec_component(self) -> ComponentView {
        ComponentView {
            name: ComponentName::Code,
            render_condition: true,
            self_render_condition: true,
            style: (RawComponentStyle {
                width: Size::Num(self.width),
                height: Size::Num(self.height),
                ..RawComponentStyle::spec_default()
            }),
            painter: PainterView::Text(TextRole::Code),
            children: Seq::empty(),
        }
    }

    /// The code with the size measured for its text.
    pub fn new(width: u32, height: u32) -> (code: Code)
        ensures
            code == (Code { width, height }),
    {
        Code { width, height }
    }

    pub fn into_component(self) -> (component: Component)
        ensures
            component@ == self.spec_component(),
    {
        let component = Component {
            name: ComponentName::Code,
            render_condition: true,
            self_render_condition: true,
            style: Style::default().size(Size::Num(self.width), Size::Num(self.height)),
            painter: Painter::Text(TextRole::Code),
            children: Vec::new(),
        };
        assert(component@.children =~= Seq::<ComponentView>::empty());
        component
    }
}

} // verus!
