//! The layers of the reader, from the bottom up: [`parse`] turns lines into
//! items, [`de`] buffers them and drives the traversal of a document,
//! [`value`] and [`number`] read a value in the shape that is asked for.
//! [`result`] and [`void`] hold small helpers for fallible values, [`error`]
//! the error that callers see.

pub mod de;
pub mod error;
pub mod number;
pub mod parse;
pub mod result;
pub mod value;
pub mod void;
