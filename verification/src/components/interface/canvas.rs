use super::render_error::GeometryError;
use crate::utils::color::RgbaColor;
use vstd::prelude::*;

verus! {

/// The widest raster that can be allocated, in pixels: a row of four bytes
/// per pixel has to fit a signed 32-bit length.
pub const MAX_RASTER_WIDTH: u32 = 0x1fff_ffff;

/// A rectangle with its upper left corner at `(x, y)`.
#[derive(Clone, Copy, Debug, PartialEq, Eq, Structural)]
pub struct Rectangle {
    pub x: i64,
    pub y: i64,
    pub width: u32,
    pub height: u32,
}

/// A circle round `(x, y)`.
#[derive(Clone, Copy, Debug, PartialEq, Eq, Structural)]
pub struct Circle {
    pub x: i64,
    pub y: i64,
    pub radius: u32,
}

/// A rectangle whose four corners are rounded with quarter circles of the
/// same radius.
#[derive(Clone, Copy, Debug, PartialEq, Eq, Structural)]
pub struct RoundedRectangle {
    pub x: i64,
    pub y: i64,
    pub width: u32,
    pub height: u32,
    pub radius: u32,
}

/// The drop shadow of a rectangle. The shadow is painted into a buffer of its
/// own, larger than the rectangle, blurred there, and then laid onto the
/// canvas at `(x, y)`.
#[derive(Clone, Copy, Debug, PartialEq, Eq, Structural)]
pub struct Shadow {
    /// Where the upper left corner of the buffer goes on the canvas.
    pub x: i64,
    pub y: i64,
    /// The size of the buffer.
    pub buffer_width: u32,
    pub buffer_height: u32,
    /// The rectangle that casts the shadow, in the coordinates of the buffer.
    pub rectangle: Rectangle,
    /// The radius of the blur.
    pub blur: u32,
    pub color: RgbaColor,
}

/// The text of the snapshot that a command paints.
#[derive(Clone, Copy, Debug, PartialEq, Eq, Structural)]
pub enum TextRole {
    Breadcrumbs,
    LineNumber,
    Code,
    Title,
    Watermark,
    /// The prompt and command of the entry with this index.
    CommandLineHeader(usize),
    /// The output of the entry with this index.
    CommandLineOutput(usize),
}

/// What the whole canvas is filled with.
#[derive(Clone, Copy, Debug, PartialEq, Eq, Structural)]
pub enum CanvasFill {
    Solid(RgbaColor),
    /// A linear gradient between two points of the canvas. Its stops are
    /// those of the background the render was configured with, as
    /// `Background::paint_stops` hands them out; beyond the first and the
    /// last stop their colours go on.
    LinearGradient { start_x: i64, start_y: i64, end_x: i64, end_y: i64 },
}

/// One step of painting. Coordinates and lengths are logical pixels; whoever
/// carries a command out scales them by the canvas's scale factor.
#[derive(Clone, Copy, Debug, PartialEq, Eq, Structural)]
pub enum DrawCommand {
    /// Fill the whole canvas. No anti-aliasing.
    FillCanvas(CanvasFill),
    /// Blur a shadow and lay it onto the canvas.
    DropShadow(Shadow),
    /// Fill a rounded rectangle with one colour.
    FillRoundedRectangle { rounded: RoundedRectangle, color: RgbaColor },
    /// Fill a rectangle with one colour. No anti-aliasing.
    FillRectangle { rectangle: Rectangle, color: RgbaColor },
    /// Fill a circle with one colour.
    FillCircle { circle: Circle, color: RgbaColor },
    /// Paint a text with its upper left corner at `(x, y)`.
    Text { role: TextRole, x: i64, y: i64 },
    /// Paint one line of text at height `y`, centred over the width of the
    /// canvas.
    CenteredLine { role: TextRole, y: i64 },
}

/// The surface a component tree is drawn on: the size of the raster and,
/// in the order in which they were issued, the commands that paint it. A
/// later command paints over an earlier one.
pub struct Canvas {
    width: u32,
    height: u32,
    scale_factor: u8,
    commands: Vec<DrawCommand>,
}

/// A raster of `width` by `height` pixels can be allocated: neither side is
/// zero, the width is no more than `MAX_RASTER_WIDTH`, and four bytes per
/// pixel can be addressed.
pub open spec fn raster_fits(width: nat, height: nat) -> bool {
    &&& 0 < width <= MAX_RASTER_WIDTH
    &&& 0 < height <= u32::MAX
    &&& 4 * width * height <= usize::MAX
}

/// The size of the raster for a layout of `width` by `height` logical
/// pixels at the given scale factor.
pub open spec fn raster_size(width: u32, height: u32, scale_factor: u8) -> std::result::Result<
    (u32, u32),
    GeometryError,
> {
    let raster_width = (width * scale_factor) as nat;
    let raster_height = (height * scale_factor) as nat;
    if raster_width == 0 || raster_height == 0 {
        Err(GeometryError::Degenerate)
    } else if !raster_fits(raster_width, raster_height) {
        Err(GeometryError::Overflow)
    } else {
        Ok((raster_width as u32, raster_height as u32))
    }
}

impl Canvas {
    /// The width of the raster in pixels.
    pub closed spec fn spec_width(&self) -> u32 {
        self.width
    }

    /// The height of the raster in pixels.
    pub closed spec fn spec_height(&self) -> u32 {
        self.height
    }

    /// How many pixels of the raster one logical pixel takes, in each
    /// direction.
    pub closed spec fn spec_scale_factor(&self) -> u8 {
        self.scale_factor
    }

    /// The commands issued so far, oldest first.
    pub closed spec fn commands(&self) -> Seq<DrawCommand> {
        self.commands@
    }

    /// An empty canvas for a layout of `width` by `height` logical pixels.
    /// Its raster is larger by the scale factor in each direction.
    pub fn new(width: u32, height: u32, scale_factor: u8) -> (canvas: std::result::Result<
        Canvas,
        GeometryError,
    >)
        ensures
            match raster_size(width, height, scale_factor) {
                Ok((raster_width, raster_height)) => {
                    &&& canvas is Ok
                    &&& canvas.unwrap().spec_width() == raster_width
                    &&& canvas.unwrap().spec_height() == raster_height
                    &&& canvas.unwrap().spec_scale_factor() == scale_factor
                    &&& canvas.unwrap().commands() == Seq::<DrawCommand>::empty()
                },
                Err(error) => canvas == Err::<Canvas, GeometryError>(error),
            },
    {
        assert(width * scale_factor <= 0xffff_ffff * 0xff && height * scale_factor <= 0xffff_ffff
            * 0xff) by (nonlinear_arith)
            requires
                width <= 0xffff_ffff,
                height <= 0xffff_ffff,
                scale_factor <= 0xff,
        ;
        let raster_width: u64 = width as u64 * scale_factor as u64;
        let raster_height: u64 = height as u64 * scale_factor as u64;
        if raster_width == 0 || raster_height == 0 {
            return Err(GeometryError::Degenerate);
        }
        if raster_width > MAX_RASTER_WIDTH as u64 || raster_height > u32::MAX as u64 {
            return Err(GeometryError::Overflow);
        }
        assert(4 * raster_width * raster_height <= 4 * 0x1fff_ffff * 0xffff_ffff)
            by (nonlinear_arith)
            requires
                raster_width <= 0x1fff_ffff,
                raster_height <= 0xffff_ffff,
        ;
        let bytes: u128 = 4 * (raster_width as u128) * (raster_height as u128);
        if bytes > usize::MAX as u128 {
            return Err(GeometryError::Overflow);
        }
        Ok(
            Canvas {
                width: raster_width as u32,
                height: raster_height as u32,
                scale_factor,
                commands: Vec::new(),
            },
        )
    }

    pub fn width(&self) -> (width: u32)
        ensures
            width == self.spec_width(),
    {
        self.width
    }

    pub fn height(&self) -> (height: u32)
        ensures
            height == self.spec_height(),
    {
        self.height
    }

    pub fn scale_factor(&self) -> (scale_factor: u8)
        ensures
            scale_factor == self.spec_scale_factor(),
    {
        self.scale_factor
    }

    /// How many commands were issued.
    pub fn len(&self) -> (count: usize)
        ensures
            count == self.commands().len(),
    {
        self.commands.len()
    }

    /// The command issued at place `index`.
    pub fn command(&self, index: usize) -> (command: Option<DrawCommand>)
        ensures
            command == if index < self.commands().len() {
                Some(self.commands()[index as int])
            } else {
                None
            },
    {
        if index < self.commands.len() {
            Some(self.commands[index])
        } else {
            None
        }
    }

    /// Issues one more command.
    pub fn push(&mut self, command: DrawCommand)
        ensures
            final(self).commands() == old(self).commands().push(command),
            final(self).spec_width() == old(self).spec_width(),
            final(self).spec_height() == old(self).spec_height(),
            final(self).spec_scale_factor() == old(self).spec_scale_factor(),
    {
        self.commands.push(command);
    }
}

} // verus!
