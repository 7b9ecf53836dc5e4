//! Core of a terminal line editor: a row/document text buffer indexed by
//! character position, and the cursor state machine that navigates and edits
//! it. Terminal I/O lives outside this crate; the library only computes.

pub mod document;
pub mod editor;
pub mod row;
