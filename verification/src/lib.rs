//! A store of notes kept as text files: front matter and a markdown body,
//! served as rendered HTML and cached by modification time.

pub mod assets;
pub mod cache;
pub mod front_matter;
pub mod note;
pub mod pattern;
pub mod render;
pub mod store;

pub use note::{Asset, Note, NoteMetadata};
pub use store::NoteStore;
