pub mod code;
pub mod color;
pub mod highlight;
pub mod number;
pub mod path;
pub mod text;
