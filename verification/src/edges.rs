pub mod edge;
pub mod margin;
pub mod padding;
