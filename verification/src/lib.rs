//! Checklists kept in markdown files.
//!
//! A document is rendered from its syntax tree into a view tree whose
//! checkable items know the line they came from; a toggle of one item is
//! turned back into a change of exactly one checkbox marker in the text, and
//! each change is described for the version-control history.

pub mod checkbox;
pub mod commit;
pub mod confinement;
pub mod laws;
pub mod lines;
pub mod markdown_renderer;
pub mod syntax;
pub mod text;
pub mod update_server;
