use crate::utils::color::RgbaColor;
use crate::utils::color::parse_hex_color;
use cansi::v3::categorise_text;
use vstd::prelude::*;
use vstd::string::StringExecFns;

verus! {

/// One of the sixteen colours that an escape sequence can select.
#[derive(Clone, Copy, Debug, PartialEq, Eq, Structural)]
pub enum Color {
    Black,
    Red,
    Green,
    Yellow,
    Blue,
    Magenta,
    Cyan,
    White,
    BrightBlack,
    BrightRed,
    BrightGreen,
    BrightYellow,
    BrightBlue,
    BrightMagenta,
    BrightCyan,
    BrightWhite,
}

/// How many colours there are.
pub const COLOR_COUNT: u8 = 16;

/// A piece of a text that is written in one colour, as the parser of escape
/// sequences hands it out: the text without the sequences, and the place of
/// its foreground colour among the sixteen colours, where it has one.
pub struct CategorisedSlice {
    pub text: String,
    pub fg: Option<u8>,
}

/// A piece of text that is written in one colour and one font.
pub struct TextSpan {
    pub text: String,
    pub color: RgbaColor,
    pub font_family: String,
}

/// The pieces that the parser of escape sequences cuts a text into, each
/// with the place of its foreground colour.
pub uninterp spec fn categorised_text(text: Seq<char>) -> Seq<(Seq<char>, Option<u8>)>;

/// The given slices are the given pieces, one for one.
pub open spec fn slices_match(
    slices: Seq<CategorisedSlice>,
    pieces: Seq<(Seq<char>, Option<u8>)>,
) -> bool {
    &&& slices.len() == pieces.len()
    &&& forall|i: int|
        0 <= i < slices.len() ==> {
            &&& (#[trigger] slices[i]).text@ == pieces[i].0
            &&& slices[i].fg == pieces[i].1
            &&& slices[i].fg is Some ==> slices[i].fg.unwrap() < COLOR_COUNT
        }
}

/// Calls `cansi::v3::categorise_text`. The result is a function of the text
/// alone and is named `categorised_text`; of each slice the text and the
/// foreground colour are kept, the colour as its place in cansi's `Color`,
/// which has sixteen variants.
#[verifier::external_body]
fn categorise(text: &str) -> (slices: Vec<CategorisedSlice>)
    ensures
        slices_match(slices@, categorised_text(text@)),
{
    categorise_text(text).into_iter().map(
        |slice|
            CategorisedSlice {
                text: slice.text.to_string(),
                fg: slice.fg.map(|color| color as u8),
            },
    ).collect()
}

impl Color {
    /// The colour at the given place among the sixteen colours; white for a
    /// place that there is not.
    pub open spec fn spec_from_code(code: u8) -> Color {
        if code == 0 {
            Color::Black
        } else if code == 1 {
            Color::Red
        } else if code == 2 {
            Color::Green
        } else if code == 3 {
            Color::Yellow
        } else if code == 4 {
            Color::Blue
        } else if code == 5 {
            Color::Magenta
        } else if code == 6 {
            Color::Cyan
        } else if code == 8 {
            Color::BrightBlack
        } else if code == 9 {
            Color::BrightRed
        } else if code == 10 {
            Color::BrightGreen
        } else if code == 11 {
            Color::BrightYellow
        } else if code == 12 {
            Color::BrightBlue
        } else if code == 13 {
            Color::BrightMagenta
        } else if code == 14 {
            Color::BrightCyan
        } else if code == 15 {
            Color::BrightWhite
        } else {
            Color::White
        }
    }

    pub fn from_code(code: u8) -> (color: Color)
        ensures
            color == Color::spec_from_code(code),
    {
        if code == 0 {
            Color::Black
        } else if code == 1 {
            Color::Red
        } else if code == 2 {
            Color::Green
        } else if code == 3 {
            Color::Yellow
        } else if code == 4 {
            Color::Blue
        } else if code == 5 {
            Color::Magenta
        } else if code == 6 {
            Color::Cyan
        } else if code == 8 {
            Color::BrightBlack
        } else if code == 9 {
            Color::BrightRed
        } else if code == 10 {
            Color::BrightGreen
        } else if code == 11 {
            Color::BrightYellow
        } else if code == 12 {
            Color::BrightBlue
        } else if code == 13 {
            Color::BrightMagenta
        } else if code == 14 {
            Color::BrightCyan
        } else if code == 15 {
            Color::BrightWhite
        } else {
            Color::White
        }
    }

    /// The colour a piece of text is written in: the one it selects, or
    /// white where it selects none.
    pub open spec fn spec_of_slice(fg: Option<u8>) -> Color {
        match fg {
            Some(code) => Color::spec_from_code(code),
            None => Color::White,
        }
    }
}

/// The colour that one of the sixteen colours is painted with.
pub open spec fn color_rgba(color: Color) -> RgbaColor {
    match color {
        Color::Black => RgbaColor { red: 0x4b, green: 0x4b, blue: 0x4b, alpha: 255 },
        Color::Red => RgbaColor { red: 0xff, green: 0x6f, blue: 0x61, alpha: 255 },
        Color::Green => RgbaColor { red: 0x77, green: 0xdd, blue: 0x77, alpha: 255 },
        Color::Yellow => RgbaColor { red: 0xff, green: 0xeb, blue: 0x3b, alpha: 255 },
        Color::Blue => RgbaColor { red: 0x89, green: 0xcf, blue: 0xf0, alpha: 255 },
        Color::Magenta => RgbaColor { red: 0xff, green: 0x77, blue: 0xff, alpha: 255 },
        Color::Cyan => RgbaColor { red: 0x00, green: 0xff, blue: 0xff, alpha: 255 },
        Color::White => RgbaColor { red: 0x97, green: 0x9e, blue: 0xab, alpha: 255 },
        Color::BrightBlack => RgbaColor { red: 0x69, green: 0x69, blue: 0x69, alpha: 255 },
        Color::BrightRed => RgbaColor { red: 0xff, green: 0x99, blue: 0x99, alpha: 255 },
        Color::BrightGreen => RgbaColor { red: 0x99, green: 0xff, blue: 0x99, alpha: 255 },
        Color::BrightYellow => RgbaColor { red: 0xff, green: 0xff, blue: 0x99, alpha: 255 },
        Color::BrightBlue => RgbaColor { red: 0xad, green: 0xd8, blue: 0xe6, alpha: 255 },
        Color::BrightMagenta => RgbaColor { red: 0xff, green: 0xb6, blue: 0xc1, alpha: 255 },
        Color::BrightCyan => RgbaColor { red: 0xe0, green: 0xff, blue: 0xff, alpha: 255 },
        Color::BrightWhite => RgbaColor { red: 0xf5, green: 0xf5, blue: 0xf5, alpha: 255 },
    }
}

/// The hex colour of one of the sixteen colours, as it is written.
pub open spec fn color_hex(color: Color) -> Seq<char> {
    match color {
        Color::Black => "#4B4B4B"@,
        Color::Red => "#FF6F61"@,
        Color::Green => "#77DD77"@,
        Color::Yellow => "#FFEB3B"@,
        Color::Blue => "#89CFF0"@,
        Color::Magenta => "#FF77FF"@,
        Color::Cyan => "#00FFFF"@,
        Color::White => "#979EAB"@,
        Color::BrightBlack => "#696969"@,
        Color::BrightRed => "#FF9999"@,
        Color::BrightGreen => "#99FF99"@,
        Color::BrightYellow => "#FFFF99"@,
        Color::BrightBlue => "#ADD8E6"@,
        Color::BrightMagenta => "#FFB6C1"@,
        Color::BrightCyan => "#E0FFFF"@,
        Color::BrightWhite => "#F5F5F5"@,
    }
}

/// The hex colour that one of the sixteen colours is painted with.
pub fn parse_color_to_hex(color: Color) -> (hex: &'static str)
    ensures
        hex@ == color_hex(color),
        parse_hex_color(hex@) == Some(color_rgba(color)),
{
    let hex = match color {
        Color::Black => "#4B4B4B",
        Color::Red => "#FF6F61",
        Color::Green => "#77DD77",
        Color::Yellow => "#FFEB3B",
        Color::Blue => "#89CFF0",
        Color::Magenta => "#FF77FF",
        Color::Cyan => "#00FFFF",
        Color::White => "#979EAB",
        Color::BrightBlack => "#696969",
        Color::BrightRed => "#FF9999",
        Color::BrightGreen => "#99FF99",
        Color::BrightYellow => "#FFFF99",
        Color::BrightBlue => "#ADD8E6",
        Color::BrightMagenta => "#FFB6C1",
        Color::BrightCyan => "#E0FFFF",
        Color::BrightWhite => "#F5F5F5",
    };
    proof {
        reveal_strlit("#4B4B4B");
        reveal_strlit("#FF6F61");
        reveal_strlit("#77DD77");
        reveal_strlit("#FFEB3B");
        reveal_strlit("#89CFF0");
        reveal_strlit("#FF77FF");
        reveal_strlit("#00FFFF");
        reveal_strlit("#979EAB");
        reveal_strlit("#696969");
        reveal_strlit("#FF9999");
        reveal_strlit("#99FF99");
        reveal_strlit("#FFFF99");
        reveal_strlit("#ADD8E6");
        reveal_strlit("#FFB6C1");
        reveal_strlit("#E0FFFF");
        reveal_strlit("#F5F5F5");
    }
    hex
}

/// A text with escape sequences that select colours, and the font it is
/// written in.
pub struct ANSI {
    raw_text: String,
    font_family: String,
}

/// The given spans are the given pieces, one for one, each in its colour
/// and all in the given font.
pub open spec fn spans_match(
    spans: Seq<TextSpan>,
    pieces: Seq<(Seq<char>, Option<u8>)>,
    font_family: Seq<char>,
) -> bool {
    &&& spans.len() == pieces.len()
    &&& forall|i: int|
        0 <= i < spans.len() ==> {
            &&& (#[trigger] spans[i]).text@ == pieces[i].0
            &&& spans[i].color == color_rgba(Color::spec_of_slice(pieces[i].1))
            &&& spans[i].font_family@ == font_family
        }
}

impl ANSI {
    /// The text as it was given, escape sequences and all.
    pub closed spec fn raw_text(&self) -> Seq<char> {
        self.raw_text@
    }

    /// The font the text is written in.
    pub closed spec fn font_family(&self) -> Seq<char> {
        self.font_family@
    }

    pub fn from(text: &str, font_family: String) -> (ansi: ANSI)
        ensures
            ansi.raw_text() == text@,
            ansi.font_family() == font_family@,
    {
        ANSI { raw_text: String::from_str(text), font_family }
    }

    /// The pieces of the text, each with the colour it is painted in: the
    /// colour that its escape sequence selects, or white.
    pub fn colorize(&self) -> (spans: Vec<TextSpan>)
        ensures
            spans_match(spans@, categorised_text(self.raw_text()), self.font_family()),
    {
        let slices = categorise(self.raw_text.as_str());
        let mut spans: Vec<TextSpan> = Vec::new();
        let mut index: usize = 0;
        while index < slices.len()
            invariant
                index <= slices@.len(),
                slices_match(slices@, categorised_text(self.raw_text())),
                spans_match(
                    spans@,
                    categorised_text(self.raw_text()).take(index as int),
                    self.font_family(),
                ),
            decreases slices@.len() - index,
        {
            let color = match slices[index].fg {
                Some(code) => Color::from_code(code),
                None => Color::White,
            };
            let rgba = colorize_one(color);
            spans.push(
                TextSpan {
                    text: slices[index].text.clone(),
                    color: rgba,
                    font_family: self.font_family.clone(),
                },
            );
            index = index + 1;
        }
        assert(categorised_text(self.raw_text()).take(index as int) =~= categorised_text(
            self.raw_text(),
        ));
        spans
    }
}

/// Reads the hex colour of one of the sixteen colours.
fn colorize_one(color: Color) -> (rgba: RgbaColor)
    ensures
        rgba == color_rgba(color),
{
    RgbaColor::from_hex(parse_color_to_hex(color)).unwrap()
}

} // verus!
