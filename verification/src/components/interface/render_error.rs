use vstd::prelude::*;
use vstd::string::StringExecFns;

verus! {

/// Why a layout could not be turned into pixels.
#[derive(Clone, Copy, Debug, PartialEq, Eq, Structural)]
pub enum GeometryError {
    /// A length or a coordinate does not fit the integer type that holds it.
    Overflow,
    /// A shape would have a side or a radius below zero, or no area at all.
    Degenerate,
}

impl GeometryError {
    /// The text shown to the user for this error.
    pub fn message(&self) -> (text: String)
        ensures
            text@ == match *self {
                GeometryError::Overflow => "A length is too large to render"@,
                GeometryError::Degenerate => "A shape has no area to render"@,
            },
    {
        match self {
            GeometryError::Overflow => String::from_str("A length is too large to render"),
            GeometryError::Degenerate => String::from_str("A shape has no area to render"),
        }
    }
}

/// Why a render was abandoned. A render that fails leaves no partial image.
#[derive(Clone, Debug)]
pub enum RenderError {
    /// The highlighting theme could not be loaded.
    HighlightThemeLoadFailed,
    /// The named file does not exist.
    NoSuchFile(String),
    /// The layout cannot be drawn.
    Geometry(GeometryError),
}

pub type Result<T> = std::result::Result<T, RenderError>;

impl RenderError {
    /// The text shown to the user for this error.
    pub fn message(&self) -> (text: String)
        ensures
            text@ == match *self {
                RenderError::HighlightThemeLoadFailed => "Highlight code failed!"@,
                RenderError::NoSuchFile(path) => "No such file "@ + path@,
                RenderError::Geometry(GeometryError::Overflow) => "A length is too large to render"@,
                RenderError::Geometry(GeometryError::Degenerate) => "A shape has no area to render"@,
            },
    {
        match self {
            RenderError::HighlightThemeLoadFailed => String::from_str("Highlight code failed!"),
            RenderError::NoSuchFile(path) => String::from_str("No such file ").concat(
                path.as_str(),
            ),
            RenderError::Geometry(error) => error.message(),
        }
    }

    /// The render error that stands for a geometry error.
    pub fn from_geometry(error: GeometryError) -> (wrapped: RenderError)
        ensures
            wrapped == RenderError::Geometry(error),
    {
        RenderError::Geometry(error)
    }
}

} // verus!
