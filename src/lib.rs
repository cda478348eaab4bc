//! A modal line editor's core: a line buffer with position-checked edits,
//! translation of key presses into editing actions by mode, the application
//! of those actions to buffer and cursor, and the layout of the result on a
//! terminal of a given size.
pub mod buffer;
pub mod editor;
pub mod render;
pub mod text;
