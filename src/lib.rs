//! View-tree pieces of a retained-mode GUI toolkit: a scrollable viewport
//! with clamped offsets, synthetic scrollbars and drag handling, and a
//! declarative menu builder.
//!
//! Geometry is held in whole pixels: origins and rectangle edges as `i64`,
//! extents as `u32`.
pub mod geometry;
pub mod arith;
pub mod scroll;
pub mod view;
pub mod laws;
pub mod menu;
