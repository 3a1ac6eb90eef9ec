use crate::cli::CLI;
use crate::cli::chosen_text;
use crate::cli::text_or;
use crate::config::Border;
use crate::config::Margin;
use crate::config::Shadow;
use crate::config::TitleConfig;
use crate::config::Window;
use vstd::prelude::*;

verus! {

/// The width of the border of a window that has one.
pub const BORDER_WIDTH: u32 = 1;

/// The window of a snapshot: what the command line asks for, and for the
/// rest what the configuration holds. The border is as the command line
/// says alone.
pub fn create_window(cli: &CLI, config_window: Window) -> (window: Window)
    ensures
        window.margin == (Margin {
            x: match cli.margin_x {
                Some(x) => x,
                None => config_window.margin.x,
            },
            y: match cli.margin_y {
                Some(y) => y,
                None => config_window.margin.y,
            },
        }),
        window.shadow.color@ == chosen_text(cli.shadow_color, config_window.shadow.color@),
        window.shadow.radius == match cli.shadow_radius {
            Some(radius) => radius,
            None => config_window.shadow.radius,
        },
        window.mac_window_bar == match cli.mac_window_bar {
            Some(shown) => shown,
            None => config_window.mac_window_bar,
        },
        window.title_config.font_family@ == chosen_text(
            cli.title_font_family,
            config_window.title_config.font_family@,
        ),
        window.title_config.color@ == chosen_text(
            cli.title_color,
            config_window.title_config.color@,
        ),
        window.border.color@ == cli.border_color@,
        window.border.width == if cli.has_border {
            BORDER_WIDTH
        } else {
            0
        },
{
    let margin = Margin {
        x: match cli.margin_x {
            Some(x) => x,
            None => config_window.margin.x,
        },
        y: match cli.margin_y {
            Some(y) => y,
            None => config_window.margin.y,
        },
    };
    let shadow = Shadow {
        color: text_or(&cli.shadow_color, config_window.shadow.color),
        radius: match cli.shadow_radius {
            Some(radius) => radius,
            None => config_window.shadow.radius,
        },
    };
    let mac_window_bar = match cli.mac_window_bar {
        Some(shown) => shown,
        None => config_window.mac_window_bar,
    };
    Window {
        margin,
        shadow,
        mac_window_bar,
        title_config: create_title(cli, config_window.title_config),
        border: create_border(cli),
    }
}

/// The border of a window as the command line asks for it.
pub fn create_border(cli: &CLI) -> (border: Border)
    ensures
        border.color@ == cli.border_color@,
        border.width == if cli.has_border {
            BORDER_WIDTH
        } else {
            0
        },
{
    Border {
        color: cli.border_color.clone(),
        width: if cli.has_border {
            BORDER_WIDTH
        } else {
            0
        },
    }
}

/// How the title is written: as the command line asks for it, and for the
/// rest as the configuration holds it.
pub fn create_title(cli: &CLI, config: TitleConfig) -> (title: TitleConfig)
    ensures
        title.font_family@ == chosen_text(cli.title_font_family, config.font_family@),
        title.color@ == chosen_text(cli.title_color, config.color@),
{
    TitleConfig {
        font_family: text_or(&cli.title_font_family, config.font_family),
        color: text_or(&cli.title_color, config.color),
    }
}

} // verus!
