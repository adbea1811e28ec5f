//! The operations that instructions apply to values.

pub mod float_unit;
pub mod arithmetic;
pub mod logic;
pub mod strings;
pub mod cast;
pub mod arrays;
