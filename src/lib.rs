//! Render and input core of a small terminal screen editor.
//!
//! The library holds the editor's state (quit flag and cursor position),
//! the cursor-motion policy, and the rendering policy, which turns a state
//! and a terminal size into the list of terminal operations of one frame.
//! Performing those operations and reading keys is left to the caller.
mod editor;
mod frame;
mod keys;

pub use editor::{Editor, EditorState, Position};
pub use frame::{
    draw_welcome_message, print_rows, terminal_coord, welcome_message, Op, Size, PRODUCT_NAME,
    VERSION,
};
pub use keys::Key;
