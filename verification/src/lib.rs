//! Editing core of a terminal text editor: an in-memory text buffer with
//! indexed character and line access, a screen-space cursor that maps onto
//! absolute positions in that buffer, and a controller that dispatches input
//! events to text mutations and cursor movements while keeping a cached
//! absolute index consistent with both.

pub mod buffer;
pub mod cursor;
pub mod editor;
