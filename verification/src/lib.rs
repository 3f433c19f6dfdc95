//! The logic of a small terminal text editor: its configuration, the
//! movement of its cursor over a document, the decisions it takes on each
//! key press, and the text it puts on screen.

pub mod config;
pub mod text;
pub mod keys;
pub mod cursor;
pub mod status;
pub mod editor;
pub mod prompt;
pub mod render;
