//! The editing core of a small modal terminal text editor: a buffer of rows
//! with a cursor, and the command/edit mode machine that drives it.

pub mod rows;
pub mod buffer;
pub mod session;
