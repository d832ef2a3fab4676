//! Converts Markdown documents to HTML, rerouting the text of fenced code
//! blocks through a class-based syntax highlighter, and offers read-only
//! catalogs of the available language grammars and color themes together
//! with per-theme CSS rendering.

pub mod catalog;
pub mod convert;
pub mod events;
pub mod highlight;
pub mod intercept;
pub mod laws;
pub mod lines;

pub use events::EvModel;
pub use events::MdEvent;
