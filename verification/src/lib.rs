//! A minimal modal text editor core: an in-memory line buffer with a cursor,
//! a two-mode (normal / insert) key dispatcher, and the mutation and
//! navigation operations that keep the cursor within the buffer.

pub mod editor;
pub mod laws;
pub mod model;
pub mod width;
