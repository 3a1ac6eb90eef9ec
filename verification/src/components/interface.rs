pub mod canvas;
pub mod component;
pub mod render_error;
pub mod style;
pub mod theorems;
