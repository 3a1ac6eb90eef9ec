use crate::components::interface::canvas::TextRole;
use crate::components::interface::component::Component;
use crate::components::interface::component::ComponentName;
use crate::components::interface::component::ComponentView;
use crate::components::interface::component::Painter;
use crate::components::interface::component::PainterView;
use crate::components::interface::style::RawComponentStyle;
use crate::components::interface::style::Size;
use crate::components::interface::style::Style;
use crate::edges::margin::Margin;
use vstd::prelude::*;
use vstd::string::StringSliceAdditionalSpecFns;
use vstd::utf8::encode_utf8;

verus! {

/// The width one byte of the title takes.
pub const TITLE_CHAR_WIDTH: u32 = 6;

/// The height of the title.
pub const TITLE_HEIGHT: u32 = 12;

/// The space the title keeps free below itself.
pub const TITLE_MARGIN_BOTTOM: u32 = 2;

/// The title of the window, centred over the width of the canvas.
pub struct Title {
    pub content: Option<String>,
}

impl Title {
    /// The width the title takes: `TITLE_CHAR_WIDTH` for each byte of its
    /// text in UTF-8.
    pub open spec fn spec_width(self) -> nat {
        match self.content {
            Some(content) => TITLE_CHAR_WIDTH as nat * encode_utf8(content@).len(),
            None => 0,
        }
    }

    /// The node that stands for the title in a tree. Without a title it is
    /// not there.
    pub open spec fn spec_component(self) -> ComponentView {
        ComponentView {
            name: ComponentName::Title,
            render_condition: self.content is Some,
            self_render_condition: true,
            style: match self.content {
                Some(_) => (RawComponentStyle {
                    width: Size::Num(self.spec_width() as u32),
                    height: Size::Num(TITLE_HEIGHT),
                    margin: (Margin { bottom: TITLE_MARGIN_BOTTOM, ..Margin::zero() }),
                    ..RawComponentStyle::spec_default()
                }),
                None => RawComponentStyle::spec_default(),
            },
            painter: PainterView::CenteredLine(TextRole::Title),
            children: Seq::empty(),
        }
    }

    pub fn from_content(content: Option<String>) -> (title: Title)
        ensures
            title.content == content,
    {
        Title { content }
    }

    /// The width of the title, where it fits a `u32`.
    pub fn width(&self) -> (width: Option<u32>)
        ensures
            width == if self.spec_width() <= u32::MAX {
                Some(self.spec_width() as u32)
            } else {
                None
            },
    {
        match &self.content {
            Some(content) => {
                let length: usize = content.as_str().as_bytes().len();
                if length as u64 > (u32::MAX / TITLE_CHAR_WIDTH) as u64 {
                    assert(TITLE_CHAR_WIDTH as nat * length as nat > u32::MAX) by (nonlinear_arith)
                        requires
                            length > 715827882,
                            TITLE_CHAR_WIDTH == 6,
                    ;
                    None
                } else {
                    assert(TITLE_CHAR_WIDTH as nat * length as nat <= u32::MAX) by (nonlinear_arith)
                        requires
                            length <= 715827882,
                            TITLE_CHAR_WIDTH == 6,
                    ;
                    Some(TITLE_CHAR_WIDTH * length as u32)
                }
            },
            None => Some(0),
        }
    }

    pub fn into_component(self) -> (component: Component)
        requires
            self.spec_width() <= u32::MAX,
        ensures
            component@ == self.spec_component(),
    {
        let style = match self.width() {
            Some(width) => {
                if self.content.is_some() {
                    Style::default().margin(
                        Margin { left: 0, right: 0, top: 0, bottom: TITLE_MARGIN_BOTTOM },
                    ).size(Size::Num(width), Size::Num(TITLE_HEIGHT))
                } else {
                    Style::default()
                }
            },
            None => Style::default(),
        };
        let component = Component {
            name: ComponentName::Title,
            render_condition: self.content.is_some(),
            self_render_condition: true,
            style,
            painter: Painter::CenteredLine(TextRole::Title),
            children: Vec::new(),
        };
        assert(component@.children =~= Seq::<ComponentView>::empty());
        component
    }
}

} // verus!
