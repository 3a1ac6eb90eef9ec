//! A layout and compositing engine for code screenshots.
//!
//! A snapshot is a tree of components. The tree is measured bottom-up, then
//! positioned top-down; while it is positioned, every visible component
//! records what it paints on a [`components::interface::canvas::Canvas`].
//! All lengths are whole logical pixels.

pub mod ansi;
pub mod assets;
pub mod cli;
pub mod code;
pub mod code_config;
pub mod components;
pub mod config;
pub mod edges;
pub mod highlight;
pub mod preset_background;
pub mod range;
pub mod save;
pub mod snapshot;
pub mod template;
pub mod themes;
pub mod utils;
pub mod watermark;
pub mod window;
