//! Star maps for the terminal.
//!
//! A constellation is kept as one record per file: a title, a list of stars
//! placed on a fixed 22 by 10 canvas, and a handful of descriptive strings.
//! This library validates such records, draws them as a framed text block
//! with the descriptive lines beside the canvas, and holds the rules by which
//! records are named, listed and picked.  Reading files and writing to the
//! terminal are left to the caller.

pub mod catalog;
pub mod command;
pub mod error;
pub mod grid;
pub mod record;
pub mod render;
pub mod style;
pub mod text;
