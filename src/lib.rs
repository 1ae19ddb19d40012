//! Loading a story text from its bytes and preparing what is shown for it.

pub mod loader;

pub use loader::{load_error_from_kind, render_display, story_output, LoadError, StoryText};
