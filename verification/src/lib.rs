//! Core of a minimal multi-tab browser client: an ordered registry of tabs,
//! each owning one parsed document, and a pipeline that lays the selected
//! document out as a vertical flow of text blocks.
//!
//! Markup parsing and native widget drawing are external collaborators; this
//! crate holds the tab lifecycle and the layout pipeline, with their
//! invariants stated and machine-checked.

pub mod browser_tabs;
pub mod document;
pub mod render_cursor;
pub mod render_item;
pub mod render_pipeline;
pub mod viewport;
