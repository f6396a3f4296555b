//! Placement and interaction core of a logic-gate schematic editor.

pub mod canvas;
pub mod component;
pub mod geometry;
pub mod grid;
pub mod interaction;
pub mod orientation;
pub mod paint;
