use super::render_error::GeometryError;
use crate::edges::edge::Edge;
use crate::edges::margin::Margin;
use crate::edges::padding::Padding;
use vstd::prelude::*;

verus! {

/// How a node arranges its children.
#[derive(Clone, Copy, Debug, PartialEq, Eq, Structural)]
pub enum ComponentAlign {
    /// Side by side, from left to right.
    Row,
    /// One below the other, from top to bottom.
    Column,
}

/// What a node declares for one of its two dimensions.
#[derive(Clone, Copy, Debug, PartialEq, Eq, Structural)]
pub enum Size {
    /// As large as the children need.
    Dynamic,
    /// This many logical pixels.
    Num(u32),
    /// As large as the parent; where there is no parent, as `Dynamic`.
    Inherit,
}

/// The box model of a node. With `T = Size` it is what the node declares,
/// with `T = u32` what the measurement pass resolved.
#[derive(Clone, Copy, Debug, PartialEq, Eq)]
pub struct Style<T> {
    pub width: T,
    pub height: T,
    pub min_width: u32,
    pub align: ComponentAlign,
    pub padding: Padding,
    pub margin: Margin,
}

/// The style a node declares.
pub type RawComponentStyle = Style<Size>;

/// The style a node was resolved to. Its `width` and `height` include the
/// node's own padding and margin.
pub type ComponentStyle = Style<u32>;

impl Style<Size> {
    /// The declared style of a node that declares nothing.
    pub open spec fn spec_default() -> RawComponentStyle {
        Style {
            width: Size::Dynamic,
            height: Size::Dynamic,
            min_width: 0,
            align: ComponentAlign::Row,
            padding: Padding::zero(),
            margin: Margin::zero(),
        }
    }

    /// The declared style that a node is measured with when it does not draw
    /// itself: it keeps the direction of its children and nothing else.
    pub open spec fn spec_silenced(self) -> RawComponentStyle {
        Style { align: self.align, ..Self::spec_default() }
    }

    pub fn silenced(self) -> (style: RawComponentStyle)
        ensures
            style == self.spec_silenced(),
    {
        Style {
            width: Size::Dynamic,
            height: Size::Dynamic,
            min_width: 0,
            align: self.align,
            padding: Padding::default(),
            margin: Margin::default(),
        }
    }

    pub fn size(self, width: Size, height: Size) -> (style: RawComponentStyle)
        ensures
            style == (Style { width, height, ..self }),
    {
        Style { width, height, ..self }
    }

    pub fn min_width(self, min_width: u32) -> (style: RawComponentStyle)
        ensures
            style == (Style { min_width, ..self }),
    {
        Style { min_width, ..self }
    }

    pub fn align(self, align: ComponentAlign) -> (style: RawComponentStyle)
        ensures
            style == (Style { align, ..self }),
    {
        Style { align, ..self }
    }

    pub fn padding(self, padding: Padding) -> (style: RawComponentStyle)
        ensures
            style == (Style { padding, ..self }),
    {
        Style { padding, ..self }
    }

    pub fn margin(self, margin: Margin) -> (style: RawComponentStyle)
        ensures
            style == (Style { margin, ..self }),
    {
        Style { margin, ..self }
    }
}

impl Default for Style<Size> {
    fn default() -> (style: RawComponentStyle)
        ensures
            style == RawComponentStyle::spec_default(),
    {
        Style {
            width: Size::Dynamic,
            height: Size::Dynamic,
            min_width: 0,
            align: ComponentAlign::Row,
            padding: Padding::default(),
            margin: Margin::default(),
        }
    }
}

impl Style<u32> {
    /// The resolved style of a node that takes no space.
    pub open spec fn zero() -> ComponentStyle {
        Style {
            width: 0,
            height: 0,
            min_width: 0,
            align: ComponentAlign::Row,
            padding: Padding::zero(),
            margin: Margin::zero(),
        }
    }

    /// The resolved sizes cover the node's own padding and margin.
    pub open spec fn covers_edges(self) -> bool {
        &&& self.width >= self.padding.spec_horizontal() + self.margin.spec_horizontal()
        &&& self.height >= self.padding.spec_vertical() + self.margin.spec_vertical()
    }
}

impl Default for Style<u32> {
    fn default() -> (style: ComponentStyle)
        ensures
            style == ComponentStyle::zero(),
    {
        Style {
            width: 0,
            height: 0,
            min_width: 0,
            align: ComponentAlign::Row,
            padding: Padding::default(),
            margin: Margin::default(),
        }
    }
}

/// The size a declaration stands for: a number stands for itself, `Dynamic`
/// for what the children need, `Inherit` for the parent's size where there is
/// a parent and for what the children need where there is none.
pub open spec fn resolve_size(size: Size, dynamic_value: nat, inherit_value: Option<nat>) -> nat {
    match size {
        Size::Num(num) => num as nat,
        Size::Dynamic => dynamic_value,
        Size::Inherit => match inherit_value {
            Some(value) => value,
            None => dynamic_value,
        },
    }
}

/// The width a node takes: the size its declaration stands for, plus its
/// padding and margin left and right, and then no less than `min_width`.
pub open spec fn resolved_width(
    style: RawComponentStyle,
    dynamic_width: nat,
    parent_width: Option<nat>,
) -> nat {
    let width = resolve_size(style.width, dynamic_width, parent_width)
        + style.padding.spec_horizontal() + style.margin.spec_horizontal();
    if width < style.min_width {
        style.min_width as nat
    } else {
        width
    }
}

/// The height a node takes: the size its declaration stands for, plus its
/// padding and margin above and below.
pub open spec fn resolved_height(
    style: RawComponentStyle,
    dynamic_height: nat,
    parent_height: Option<nat>,
) -> nat {
    resolve_size(style.height, dynamic_height, parent_height) + style.padding.spec_vertical()
        + style.margin.spec_vertical()
}

/// The width of the parent, where there is one.
pub open spec fn parent_width(parent_style: Option<ComponentStyle>) -> Option<nat> {
    match parent_style {
        Some(style) => Some(style.width as nat),
        None => None,
    }
}

/// The height of the parent, where there is one.
pub open spec fn parent_height(parent_style: Option<ComponentStyle>) -> Option<nat> {
    match parent_style {
        Some(style) => Some(style.height as nat),
        None => None,
    }
}

/// The resolved style of a node with the declared style `style`, whose
/// children need `dynamic_width` by `dynamic_height`. It fails where a
/// resolved size is too large for a `u32`.
pub open spec fn resolve_style(
    style: RawComponentStyle,
    dynamic_width: nat,
    dynamic_height: nat,
    parent_style: Option<ComponentStyle>,
) -> std::result::Result<ComponentStyle, GeometryError> {
    let width = resolved_width(style, dynamic_width, parent_width(parent_style));
    let height = resolved_height(style, dynamic_height, parent_height(parent_style));
    if width > u32::MAX || height > u32::MAX {
        Err(GeometryError::Overflow)
    } else {
        Ok(
            Style {
                width: width as u32,
                height: height as u32,
                min_width: style.min_width,
                align: style.align,
                padding: style.padding,
                margin: style.margin,
            },
        )
    }
}

/// The size that a declaration stands for, given what the children need and
/// what the parent has.
pub fn parse_size(size: Size, dynamic_value: u128, inherit_value: Option<u32>) -> (value: u128)
    ensures
        value == resolve_size(
            size,
            dynamic_value as nat,
            match inherit_value {
                Some(inherited) => Some(inherited as nat),
                None => None,
            },
        ),
{
    match size {
        Size::Num(num) => num as u128,
        Size::Dynamic => dynamic_value,
        Size::Inherit => match inherit_value {
            Some(inherited) => inherited as u128,
            None => dynamic_value,
        },
    }
}

/// Resolves a declared style against what the children need and what the
/// parent has.
pub fn resolve(
    style: RawComponentStyle,
    dynamic_width: u128,
    dynamic_height: u128,
    parent_style: Option<&ComponentStyle>,
) -> (resolved: std::result::Result<ComponentStyle, GeometryError>)
    requires
        dynamic_width <= u128::MAX - 0x4_0000_0000,
        dynamic_height <= u128::MAX - 0x4_0000_0000,
    ensures
        resolved == resolve_style(
            style,
            dynamic_width as nat,
            dynamic_height as nat,
            match parent_style {
                Some(parent) => Some(*parent),
                None => None,
            },
        ),
{
    let limit: u128 = u32::MAX as u128;
    let inherit_width: Option<u32> = match parent_style {
        Some(parent) => Some(parent.width),
        None => None,
    };
    let inherit_height: Option<u32> = match parent_style {
        Some(parent) => Some(parent.height),
        None => None,
    };
    let width: u128 = parse_size(style.width, dynamic_width, inherit_width)
        + style.padding.horizontal() as u128 + style.margin.horizontal() as u128;
    let width: u128 = if width < style.min_width as u128 {
        style.min_width as u128
    } else {
        width
    };
    let height: u128 = parse_size(style.height, dynamic_height, inherit_height)
        + style.padding.vertical() as u128 + style.margin.vertical() as u128;
    if width > limit || height > limit {
        Err(GeometryError::Overflow)
    } else {
        Ok(
            Style {
                width: width as u32,
                height: height as u32,
                min_width: style.min_width,
                align: style.align,
                padding: style.padding,
                margin: style.margin,
            },
        )
    }
}

} // verus!
