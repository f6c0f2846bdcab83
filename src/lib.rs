//! Translation of a web view's low-level drag-and-drop notifications into a
//! small, ordered set of application-facing drag-and-drop events.

pub mod uri;
pub mod session;
pub mod laws;
