use crate::cli::CLI;
use crate::cli::text_or;
use crate::config::Watermark;
use vstd::prelude::*;
use vstd::string::StringExecFns;

verus! {

/// The colour of a watermark of which no colour is said.
pub const DEFAULT_WATERMARK_COLOR: &'static str = "#ffffff";

/// The font of a watermark of which no font is said.
pub const DEFAULT_WATERMARK_FONT: &'static str = "Pacifico";

/// The text of the watermark: the one the command line asks for, else the
/// one the configuration holds.
pub open spec fn watermark_content(cli: &CLI, config_watermark: Option<Watermark>) -> Option<
    Seq<char>,
> {
    match cli.watermark {
        Some(content) => Some(content@),
        None => match config_watermark {
            Some(watermark) => Some(watermark.content@),
            None => None,
        },
    }
}

/// The colour of the watermark: the one the command line asks for, else
/// the one the configuration holds, else the default.
pub open spec fn watermark_color(cli: &CLI, config_watermark: Option<Watermark>) -> Seq<char> {
    match cli.watermark_color {
        Some(color) => color@,
        None => match config_watermark {
            Some(watermark) => watermark.color@,
            None => DEFAULT_WATERMARK_COLOR@,
        },
    }
}

/// The font of the watermark: the one the command line asks for, else the
/// one the configuration holds, else the default.
pub open spec fn watermark_font(cli: &CLI, config_watermark: Option<Watermark>) -> Seq<char> {
    match cli.watermark_font_family {
        Some(font) => font@,
        None => match config_watermark {
            Some(watermark) => watermark.font_family@,
            None => DEFAULT_WATERMARK_FONT@,
        },
    }
}

/// The watermark of a snapshot. There is one where the command line or the
/// configuration holds a text for it.
pub fn create_watermark(cli: &CLI, config_watermark: Option<Watermark>) -> (watermark: Option<
    Watermark,
>)
    ensures
        match watermark_content(cli, config_watermark) {
            None => watermark is None,
            Some(content) => {
                &&& watermark is Some
                &&& watermark.unwrap().content@ == content
                &&& watermark.unwrap().color@ == watermark_color(cli, config_watermark)
                &&& watermark.unwrap().font_family@ == watermark_font(cli, config_watermark)
            },
        },
{
    match config_watermark {
        Some(config) => Some(
            Watermark {
                content: text_or(&cli.watermark, config.content),
                color: text_or(&cli.watermark_color, config.color),
                font_family: text_or(&cli.watermark_font_family, config.font_family),
            },
        ),
        None => match &cli.watermark {
            None => None,
            Some(content) => Some(
                Watermark {
                    content: content.clone(),
                    color: text_or(&cli.watermark_color, String::from_str(DEFAULT_WATERMARK_COLOR)),
                    font_family: text_or(
                        &cli.watermark_font_family,
                        String::from_str(DEFAULT_WATERMARK_FONT),
                    ),
                },
            ),
        },
    }
}

} // verus!
