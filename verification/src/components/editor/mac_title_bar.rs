use crate::components::interface::canvas::Canvas;
use crate::components::interface::canvas::Circle;
use crate::components::interface::canvas::DrawCommand;
use crate::components::interface::component::Component;
use crate::components::interface::component::ComponentName;
use crate::components::interface::component::ComponentView;
use crate::components::interface::component::Painter;
use crate::components::interface::component::PainterView;
use crate::components::interface::component::RenderParams;
use crate::components::interface::render_error::GeometryError;
use crate::components::interface::style::RawComponentStyle;
use crate::components::interface::style::Size;
use crate::components::interface::style::Style;
use crate::edges::margin::Margin;
use crate::utils::color::RgbaColor;
use vstd::prelude::*;

verus! {

/// The radius of a control button.
pub const RADIUS: u32 = 6;

/// The space between two control buttons.
pub const GAP: u32 = 4;

/// How many control buttons the bar has.
pub const BUTTON_COUNT: usize = 3;

/// The colour of the control button at place `index`: red, yellow, green.
pub open spec fn button_color(index: nat) -> RgbaColor {
    if index == 0 {
        RgbaColor { red: 255, green: 94, blue: 87, alpha: 255 }
    } else if index == 1 {
        RgbaColor { red: 255, green: 186, blue: 46, alpha: 255 }
    } else {
        RgbaColor { red: 43, green: 200, blue: 65, alpha: 255 }
    }
}

/// The control button at place `index` of a bar whose upper left corner is
/// at `render_params`: the buttons stand in a row, each one diameter and one
/// gap after the one before.
pub open spec fn control_button(render_params: RenderParams, index: nat) -> Circle {
    Circle {
        x: (render_params.x + RADIUS + index * (2 * RADIUS + GAP)) as i64,
        y: (render_params.y + RADIUS) as i64,
        radius: RADIUS,
    }
}

/// What the bar paints: its three buttons from left to right. It fails
/// where a button's centre has no coordinates.
pub open spec fn title_bar_commands(render_params: RenderParams) -> Result<
    Seq<DrawCommand>,
    GeometryError,
> {
    if render_params.x + RADIUS + 2 * (2 * RADIUS + GAP) > i64::MAX || render_params.y + RADIUS
        > i64::MAX {
        Err(GeometryError::Overflow)
    } else {
        Ok(
            seq![
                DrawCommand::FillCircle {
                    circle: control_button(render_params, 0),
                    color: button_color(0),
                },
                DrawCommand::FillCircle {
                    circle: control_button(render_params, 1),
                    color: button_color(1),
                },
                DrawCommand::FillCircle {
                    circle: control_button(render_params, 2),
                    color: button_color(2),
                },
            ],
        )
    }
}

/// Issues the commands that paint the control buttons. Buttons that
/// cannot be painted leave the canvas as it was.
pub fn draw_control_buttons(canvas: &mut Canvas, render_params: &RenderParams) -> (done: Result<
    (),
    GeometryError,
>)
    ensures
        match title_bar_commands(*render_params) {
            Ok(commands) => done is Ok && final(canvas).commands() == old(canvas).commands()
                + commands,
            Err(error) => done == Err::<(), GeometryError>(error) && final(canvas).commands()
                == old(canvas).commands(),
        },
        final(canvas).spec_width() == old(canvas).spec_width(),
        final(canvas).spec_height() == old(canvas).spec_height(),
        final(canvas).spec_scale_factor() == old(canvas).spec_scale_factor(),
{
    let reach: i64 = (RADIUS + 2 * (2 * RADIUS + GAP)) as i64;
    if render_params.x > i64::MAX - reach || render_params.y > i64::MAX - RADIUS as i64 {
        return Err(GeometryError::Overflow);
    }
    let colors: [RgbaColor; 3] = [
        RgbaColor { red: 255, green: 94, blue: 87, alpha: 255 },
        RgbaColor { red: 255, green: 186, blue: 46, alpha: 255 },
        RgbaColor { red: 43, green: 200, blue: 65, alpha: 255 },
    ];
    let diameter: i64 = (RADIUS * 2) as i64;
    let mut index: usize = 0;
    while index < BUTTON_COUNT
        invariant
            index <= BUTTON_COUNT,
            diameter == 2 * RADIUS,
            render_params.x + RADIUS + 2 * (2 * RADIUS + GAP) <= i64::MAX,
            render_params.y + RADIUS <= i64::MAX,
            colors@ == seq![button_color(0), button_color(1), button_color(2)],
            canvas.commands() == old(canvas).commands() + title_bar_commands(
                *render_params,
            ).unwrap().take(index as int),
            canvas.spec_width() == old(canvas).spec_width(),
            canvas.spec_height() == old(canvas).spec_height(),
            canvas.spec_scale_factor() == old(canvas).spec_scale_factor(),
        decreases BUTTON_COUNT - index,
    {
        let x_offset: i64 = index as i64 * (diameter + GAP as i64);
        let circle = Circle {
            x: render_params.x + RADIUS as i64 + x_offset,
            y: render_params.y + RADIUS as i64,
            radius: RADIUS,
        };
        let ghost before = canvas.commands();
        canvas.push(DrawCommand::FillCircle { circle, color: colors[index] });
        proof {
            let all = title_bar_commands(*render_params).unwrap();
            assert(all.take(index + 1) =~= all.take(index as int).push(all[index as int]));
            assert(canvas.commands() =~= old(canvas).commands() + all.take(index + 1));
        }
        index = index + 1;
    }
    proof {
        let all = title_bar_commands(*render_params).unwrap();
        assert(all.take(3) =~= all);
    }
    Ok(())
}

/// The width the bar takes: one diameter and fifty more.
pub const BAR_WIDTH: u32 = 2 * RADIUS + 2 * 25;

/// The space the bar keeps free below itself.
pub const BAR_MARGIN_BOTTOM: u32 = 10;

/// The bar with the three control buttons of a window.
pub struct MacTitleBar {
    pub render_condition: bool,
}

impl MacTitleBar {
    /// The node that stands for the bar in a tree. It is one diameter
    /// high.
    pub open spec fn spec_component(self) -> ComponentView {
        ComponentView {
            name: ComponentName::MacTitleBar,
            render_condition: self.render_condition,
            self_render_condition: true,
            style: (RawComponentStyle {
                width: Size::Num(BAR_WIDTH),
                height: Size::Num((2 * RADIUS) as u32),
                margin: (Margin { bottom: BAR_MARGIN_BOTTOM, ..Margin::zero() }),
                ..RawComponentStyle::spec_default()
            }),
            painter: PainterView::MacTitleBar,
            children: Seq::empty(),
        }
    }

    pub fn new(render_condition: bool) -> (bar: MacTitleBar)
        ensures
            bar.render_condition == render_condition,
    {
        MacTitleBar { render_condition }
    }

    pub fn into_component(self) -> (component: Component)
        ensures
            component@ == self.spec_component(),
    {
        let diameter: u32 = RADIUS * 2;
        let component = Component {
            name: ComponentName::MacTitleBar,
            render_condition: self.render_condition,
            self_render_condition: true,
            style: Style::default().size(Size::Num(diameter + 2 * 25), Size::Num(diameter)).margin(
                Margin { left: 0, right: 0, top: 0, bottom: BAR_MARGIN_BOTTOM },
            ),
            painter: Painter::MacTitleBar,
            children: Vec::new(),
        };
        assert(component@.children =~= Seq::<ComponentView>::empty());
        component
    }
}

} // verus!
