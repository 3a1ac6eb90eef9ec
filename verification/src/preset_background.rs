use crate::config::Background;
use crate::config::DimensionValue;
use crate::config::GradientPoint;
use crate::config::LinearGradient;
use crate::config::LinearGradientStop;
use vstd::prelude::*;

verus! {

/// A background is a gradient from the left side of the canvas to its
/// right side with the given stops, in their order.
pub open spec fn is_horizontal_gradient(
    background: Background,
    stops: Seq<(u16, Seq<char>)>,
) -> bool {
    &&& background matches Background::Gradient(gradient)
    &&& gradient.start.x == DimensionValue::Num(0)
    &&& gradient.start.y == DimensionValue::Num(0)
    &&& gradient.end.x == DimensionValue::Max
    &&& gradient.end.y == DimensionValue::Num(0)
    &&& gradient.stops@.len() == stops.len()
    &&& forall|i: int|
        0 <= i < stops.len() ==> (#[trigger] gradient.stops@[i]).position == stops[i].0
            && gradient.stops@[i].color@ == stops[i].1
}

fn horizontal_gradient(stops: Vec<LinearGradientStop>) -> (background: Background)
    ensures
        background matches Background::Gradient(gradient) && gradient.stops == stops
            && gradient.start.x == DimensionValue::Num(0) && gradient.start.y
            == DimensionValue::Num(0) && gradient.end.x == DimensionValue::Max && gradient.end.y
            == DimensionValue::Num(0),
{
    Background::Gradient(
        LinearGradient {
            start: GradientPoint { x: DimensionValue::Num(0), y: DimensionValue::Num(0) },
            end: GradientPoint { x: DimensionValue::Max, y: DimensionValue::Num(0) },
            stops,
        },
    )
}

/// Green, as bamboo.
pub fn bamboo() -> (background: Background)
    ensures
        is_horizontal_gradient(background, seq![(220u16, "#6bcba5"@), (950u16, "#caf4c2"@)]),
        background.is_valid(),
{
    proof {
        reveal_strlit("#6bcba5");
        reveal_strlit("#caf4c2");
    }
    let mut stops: Vec<LinearGradientStop> = Vec::new();
    stops.push(LinearGradientStop::new(220, "#6bcba5"));
    stops.push(LinearGradientStop::new(950, "#caf4c2"));
    horizontal_gradient(stops)
}

/// Blue to green, as the sea.
pub fn sea() -> (background: Background)
    ensures
        is_horizontal_gradient(background, seq![(0u16, "#1fa2ff"@), (400u16, "#12d8fa"@), (950u16, "#a6ffcb"@)]),
        background.is_valid(),
{
    proof {
        reveal_strlit("#1fa2ff");
        reveal_strlit("#12d8fa");
        reveal_strlit("#a6ffcb");
    }
    let mut stops: Vec<LinearGradientStop> = Vec::new();
    stops.push(LinearGradientStop::new(0, "#1fa2ff"));
    stops.push(LinearGradientStop::new(400, "#12d8fa"));
    stops.push(LinearGradientStop::new(950, "#a6ffcb"));
    horizontal_gradient(stops)
}

/// Purple to orange: the background of the first snapshots.
pub fn classic() -> (background: Background)
    ensures
        is_horizontal_gradient(background, seq![(0u16, "#3a1c71"@), (500u16, "#d76d77"@), (950u16, "#ffb07c"@)]),
        background.is_valid(),
{
    proof {
        reveal_strlit("#3a1c71");
        reveal_strlit("#d76d77");
        reveal_strlit("#ffb07c");
    }
    let mut stops: Vec<LinearGradientStop> = Vec::new();
    stops.push(LinearGradientStop::new(0, "#3a1c71"));
    stops.push(LinearGradientStop::new(500, "#d76d77"));
    stops.push(LinearGradientStop::new(950, "#ffb07c"));
    horizontal_gradient(stops)
}

/// Violet, as grapes.
pub fn grape() -> (background: Background)
    ensures
        is_horizontal_gradient(background, seq![(280u16, "#675af7"@), (950u16, "#bd65fa"@)]),
        background.is_valid(),
{
    proof {
        reveal_strlit("#675af7");
        reveal_strlit("#bd65fa");
    }
    let mut stops: Vec<LinearGradientStop> = Vec::new();
    stops.push(LinearGradientStop::new(280, "#675af7"));
    stops.push(LinearGradientStop::new(950, "#bd65fa"));
    horizontal_gradient(stops)
}

/// Pink to orange, as a peach.
pub fn peach() -> (background: Background)
    ensures
        is_horizontal_gradient(background, seq![(220u16, "#dd5e89"@), (950u16, "#f7bb97"@)]),
        background.is_valid(),
{
    proof {
        reveal_strlit("#dd5e89");
        reveal_strlit("#f7bb97");
    }
    let mut stops: Vec<LinearGradientStop> = Vec::new();
    stops.push(LinearGradientStop::new(220, "#dd5e89"));
    stops.push(LinearGradientStop::new(950, "#f7bb97"));
    horizontal_gradient(stops)
}

/// Pink to blue, as a summer sky.
pub fn summer() -> (background: Background)
    ensures
        is_horizontal_gradient(background, seq![(280u16, "#f8a5c2"@), (950u16, "#74b9ff"@)]),
        background.is_valid(),
{
    proof {
        reveal_strlit("#f8a5c2");
        reveal_strlit("#74b9ff");
    }
    let mut stops: Vec<LinearGradientStop> = Vec::new();
    stops.push(LinearGradientStop::new(280, "#f8a5c2"));
    stops.push(LinearGradientStop::new(950, "#74b9ff"));
    horizontal_gradient(stops)
}

/// Red to yellow, as at dusk.
pub fn dusk() -> (background: Background)
    ensures
        is_horizontal_gradient(background, seq![(220u16, "#ff626e"@), (950u16, "#ffbe71"@)]),
        background.is_valid(),
{
    proof {
        reveal_strlit("#ff626e");
        reveal_strlit("#ffbe71");
    }
    let mut stops: Vec<LinearGradientStop> = Vec::new();
    stops.push(LinearGradientStop::new(220, "#ff626e"));
    stops.push(LinearGradientStop::new(950, "#ffbe71"));
    horizontal_gradient(stops)
}

} // verus!
