//! Verified core of a block-based visual editing canvas.
//!
//! A palette of named block templates can be dragged onto a canvas to stamp
//! movable, editable block instances. This crate holds the interactive
//! canvas core: the data model for templates and instances, the canvas
//! state store with its single drag token, the drag-lifecycle state
//! machine, the post-edit remeasure decision, and the deterministic
//! generator that turns a block's shape category and pixel size into its
//! closed puzzle-piece outline path. All positions and sizes are whole
//! canvas pixels.

pub mod controller;
pub mod geometry;
pub mod measure;
pub mod model;
pub mod order;
pub mod seed;
pub mod store;
