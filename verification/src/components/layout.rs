pub mod column;
pub mod row;
