use crate::components::interface::canvas::TextRole;
use crate::components::interface::component::Component;
use crate::components::interface::component::ComponentName;
use crate::components::interface::component::ComponentView;
use crate::components::interface::component::Painter;
use crate::components::interface::component::PainterView;
use crate::components::interface::style::RawComponentStyle;
use crate::components::interface::style::Size;
use crate::components::interface::style::Style;
use vstd::prelude::*;

verus! {

/// What the command of one entry printed. Its size is what the font
/// renderer measured for the output. All outputs share one name: the size of
/// the first output that is measured in a render stands for all of them.
pub struct CommandLineOutput {
    /// The place of the entry among the entries of the snapshot.
    pub index: usize,
    pub width: u32,
    pub height: u32,
}

impl CommandLineOutput {
    /// The node that stands for the text in a tree.
    pub open spec fn spec_component(self) -> ComponentView {
        ComponentView {
            name: ComponentName::CommandLineOutput,
            render_condition: true,
            self_render_condition: true,
            style: (RawComponentStyle {
                width: Size::Num(self.width),
                height: Size::Num(self.height),
                ..RawComponentStyle::spec_default()
            }),
            painter: PainterView::Text(TextRole::CommandLineOutput(self.index)),
            children: Seq::empty(),
        }
    }

    /// The text of the entry at place `index`, with the size measured for
    /// it.
    pub fn from(index: usize, width: u32, height: u32) -> (text: CommandLineOutput)
        ensures
            text == (CommandLineOutput { index, width, height }),
    {
        CommandLineOutput { index, width, height }
    }

    pub fn into_component(self) -> (component: Component)
        ensures
            component@ == self.spec_component(),
    {
        let component = Component {
            name: ComponentName::CommandLineOutput,
            render_condition: true,
            self_render_condition: true,
            style: Style::default().size(Size::Num(self.width), Size::Num(self.height)),
            painter: Painter::Text(TextRole::CommandLineOutput(self.index)),
            children: Vec::new(),
        };
        assert(component@.children =~= Seq::<ComponentView>::empty());
        component
    }
}

} // verus!
