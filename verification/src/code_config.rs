use crate::cli::CLI;
use crate::cli::chosen_text;
use crate::cli::text_or;
use crate::config::Breadcrumbs;
use crate::config::CodeConfig;
use vstd::prelude::*;
use vstd::string::StringExecFns;

verus! {

/// The font that code is written in where no font is said.
pub const DEFAULT_CODE_FONT: &'static str = "CaskaydiaCove Nerd Font";

/// How the code is written: the breadcrumbs as the command line asks for
/// them, and for the rest as the configuration holds them; the font as the
/// command line asks for it, else the default font.
pub fn create_code_config(cli: &CLI, code_config: CodeConfig) -> (config: CodeConfig)
    ensures
        config.font_family@ == chosen_text(cli.code_font_family, DEFAULT_CODE_FONT@),
        config.breadcrumbs.enable == match cli.has_breadcrumbs {
            Some(enable) => enable,
            None => code_config.breadcrumbs.enable,
        },
        config.breadcrumbs.separator@ == chosen_text(
            cli.breadcrumbs_separator,
            code_config.breadcrumbs.separator@,
        ),
        config.breadcrumbs.font_family@ == chosen_text(
            cli.breadcrumbs_font_family,
            code_config.breadcrumbs.font_family@,
        ),
        config.breadcrumbs.color@ == chosen_text(
            cli.breadcrumbs_color,
            code_config.breadcrumbs.color@,
        ),
{
    CodeConfig {
        breadcrumbs: map_breadcrumbs(cli, code_config.breadcrumbs),
        font_family: text_or(&cli.code_font_family, String::from_str(DEFAULT_CODE_FONT)),
    }
}

/// The breadcrumbs as the command line asks for them, and for the rest as
/// the configuration holds them.
pub fn map_breadcrumbs(cli: &CLI, breadcrumbs_config: Breadcrumbs) -> (breadcrumbs: Breadcrumbs)
    ensures
        breadcrumbs.enable == match cli.has_breadcrumbs {
            Some(enable) => enable,
            None => breadcrumbs_config.enable,
        },
        breadcrumbs.separator@ == chosen_text(
            cli.breadcrumbs_separator,
            breadcrumbs_config.separator@,
        ),
        breadcrumbs.font_family@ == chosen_text(
            cli.breadcrumbs_font_family,
            breadcrumbs_config.font_family@,
        ),
        breadcrumbs.color@ == chosen_text(cli.breadcrumbs_color, breadcrumbs_config.color@),
{
    Breadcrumbs {
        enable: match cli.has_breadcrumbs {
            Some(enable) => enable,
            None => breadcrumbs_config.enable,
        },
        separator: text_or(&cli.breadcrumbs_separator, breadcrumbs_config.separator),
        font_family: text_or(&cli.breadcrumbs_font_family, breadcrumbs_config.font_family),
        color: text_or(&cli.breadcrumbs_color, breadcrumbs_config.color),
    }
}

} // verus!
