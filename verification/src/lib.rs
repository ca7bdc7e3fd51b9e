//! A GPU-rendered list widget bound to a dynamically typed value store.
//!
//! The crate holds the widget model (entries, selection, styles), the
//! value store that list entries are bound to, the layout pass that turns
//! widget state into positioned rectangles and text labels, and the
//! instance staging area that mirrors the GPU-side buffer. Colors and
//! free 3-D placements carry IEEE 754 bit patterns as plain integers;
//! the conversion to actual floating-point matrices is left to the
//! rendering shell around this crate.

pub mod color;
pub mod geometry;
pub mod instances;
pub mod layout;
pub mod state;
pub mod store;
pub mod text;
pub mod textfmt;
pub mod widget;
