pub mod code;
pub mod mac_title_bar;
pub mod title;
