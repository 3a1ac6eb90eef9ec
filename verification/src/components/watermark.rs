use super::interface::canvas::TextRole;
use super::interface::component::Component;
use super::interface::component::ComponentName;
use super::interface::component::ComponentView;
use super::interface::component::Painter;
use super::interface::component::PainterView;
use super::interface::style::RawComponentStyle;
use super::interface::style::Style;
use crate::config;
use crate::edges::margin::Margin;
use vstd::prelude::*;

verus! {

/// The space the watermark keeps free above itself.
pub const WATERMARK_MARGIN_TOP: u32 = 50;

/// The space the watermark keeps free below itself.
pub const WATERMARK_MARGIN_BOTTOM: u32 = 22;

/// The label below the window, centred over the width of the canvas.
pub struct Watermark {
    pub config: Option<config::Watermark>,
}

/// The node of the watermark. Where no watermark is shown it is not
/// there.
pub open spec fn watermark_view(shown: bool) -> ComponentView {
    ComponentView {
        name: ComponentName::Watermark,
        render_condition: shown,
        self_render_condition: true,
        style: if shown {
            RawComponentStyle {
                margin: (Margin {
                    bottom: WATERMARK_MARGIN_BOTTOM,
                    top: WATERMARK_MARGIN_TOP,
                    ..Margin::zero()
                }),
                ..RawComponentStyle::spec_default()
            }
        } else {
            RawComponentStyle::spec_default()
        },
        painter: PainterView::CenteredLine(TextRole::Watermark),
        children: Seq::empty(),
    }
}

impl Watermark {
    /// The node that stands for the watermark in a tree.
    pub open spec fn spec_component(self) -> ComponentView {
        watermark_view(self.config is Some)
    }

    pub fn new(config: Option<config::Watermark>) -> (watermark: Watermark)
        ensures
            watermark.config == config,
    {
        Watermark { config }
    }

    pub fn into_component(self) -> (component: Component)
        ensures
            component@ == self.spec_component(),
    {
        let default_style = Style::default();
        let style = match &self.config {
            Some(_) => default_style.margin(
                Margin {
                    left: 0,
                    right: 0,
                    bottom: WATERMARK_MARGIN_BOTTOM,
                    top: WATERMARK_MARGIN_TOP,
                },
            ),
            None => default_style,
        };
        let component = Component {
            name: ComponentName::Watermark,
            render_condition: self.config.is_some(),
            self_render_condition: true,
            style,
            painter: Painter::CenteredLine(TextRole::Watermark),
            children: Vec::new(),
        };
        assert(component@.children =~= Seq::<ComponentView>::empty());
        component
    }
}

} // verus!
