use vstd::prelude::*;

verus! {

/// The bit of a font style that asks for bold letters.
pub const FONT_STYLE_BOLD: u8 = 1;

/// The bit of a font style that asks for underlined letters.
pub const FONT_STYLE_UNDERLINE: u8 = 2;

/// The bit of a font style that asks for italic letters.
pub const FONT_STYLE_ITALIC: u8 = 4;

/// How the letters of a span are drawn.
#[derive(Clone, Copy, Debug, PartialEq, Eq, Structural)]
pub enum SpanStyle {
    Regular,
    Bold,
    Italic,
}

/// A text to highlight, and the font it is written in.
pub struct Highlight {
    content: String,
    font_family: String,
}

/// How the letters of a span with the given font style are drawn: bold
/// for a style that is bold and nothing else, italic for one that is italic
/// and nothing else, and regular for every other style.
pub open spec fn span_style(font_style: u8) -> SpanStyle {
    if font_style == FONT_STYLE_BOLD {
        SpanStyle::Bold
    } else if font_style == FONT_STYLE_ITALIC {
        SpanStyle::Italic
    } else {
        SpanStyle::Regular
    }
}

impl Highlight {
    /// The text.
    pub closed spec fn content(&self) -> Seq<char> {
        self.content@
    }

    /// The font.
    pub closed spec fn font_family(&self) -> Seq<char> {
        self.font_family@
    }

    pub fn new(content: String, font_family: String) -> (highlight: Highlight)
        ensures
            highlight.content() == content@,
            highlight.font_family() == font_family@,
    {
        Highlight { content, font_family }
    }

    /// The text as it is handed to the highlighter.
    pub fn text(&self) -> (text: &str)
        ensures
            text@ == self.content(),
    {
        self.content.as_str()
    }

    /// The font as it is handed to the font renderer.
    pub fn font(&self) -> (font: &str)
        ensures
            font@ == self.font_family(),
    {
        self.font_family.as_str()
    }

    /// How the letters of a span with the given font style are drawn.
    pub fn parse_style(font_style: u8) -> (style: SpanStyle)
        ensures
            style == span_style(font_style),
    {
        if font_style == FONT_STYLE_BOLD {
            SpanStyle::Bold
        } else if font_style == FONT_STYLE_ITALIC {
            SpanStyle::Italic
        } else {
            SpanStyle::Regular
        }
    }
}

} // verus!
