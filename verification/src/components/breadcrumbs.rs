use super::interface::canvas::TextRole;
use super::interface::component::Component;
use super::interface::component::ComponentName;
use super::interface::component::ComponentView;
use super::interface::component::Painter;
use super::interface::component::PainterView;
use super::interface::style::RawComponentStyle;
use super::interface::style::Size;
use super::interface::style::Style;
use crate::edges::margin::Margin;
use vstd::prelude::*;

verus! {

/// The height of the line the path is written in.
pub const LINE_HEIGHT: u32 = 15;

/// The path of the file, written above the code. Its size is what was
/// measured for the path.
pub struct Breadcrumbs {
    pub has_breadcrumbs: bool,
    pub path: Option<String>,
    pub width: u32,
    pub height: u32,
}

impl Breadcrumbs {
    /// The node that stands for the breadcrumbs in a tree. Where they are
    /// switched off the node is not there. Without a path it takes no space
    /// and paints nothing.
    pub open spec fn spec_component(self) -> ComponentView {
        ComponentView {
            name: ComponentName::Breadcrumbs,
            render_condition: self.has_breadcrumbs,
            self_render_condition: true,
            style: if self.has_breadcrumbs && self.path is Some {
                RawComponentStyle {
                    width: Size::Num(self.width),
                    height: Size::Num(self.height),
                    ..RawComponentStyle::spec_default()
                }
            } else {
                RawComponentStyle::spec_default()
            },
            painter: if self.path is Some {
                PainterView::Text(TextRole::Breadcrumbs)
            } else {
                PainterView::Nothing
            },
            children: Seq::empty(),
        }
    }

    /// The breadcrumbs for the given path, with the size measured for it.
    pub fn from(has_breadcrumbs: bool, file_path: Option<String>, width: u32, height: u32) -> (breadcrumbs:
        Breadcrumbs)
        ensures
            breadcrumbs == (Breadcrumbs { has_breadcrumbs, path: file_path, width, height }),
    {
        Breadcrumbs { path: file_path, has_breadcrumbs, width, height }
    }

    pub fn into_component(self) -> (component: Component)
        ensures
            component@ == self.spec_component(),
    {
        let style = Style::default();
        let style = if self.has_breadcrumbs && self.path.is_some() {
            style.size(Size::Num(self.width), Size::Num(self.height)).margin(Margin::default())
        } else {
            style
        };
        let painter = if self.path.is_some() {
            Painter::Text(TextRole::Breadcrumbs)
        } else {
            Painter::Nothing
        };
        let component = Component {
            name: ComponentName::Breadcrumbs,
            render_condition: self.has_breadcrumbs,
            self_render_condition: true,
            style,
            painter,
            children: Vec::new(),
        };
        assert(component@.children =~= Seq::<ComponentView>::empty());
        component
    }
}

} // verus!
