//! Small studies of loops, strings, borrowing and traits.

pub mod control_flow;
pub mod ownership;
pub mod traits;
