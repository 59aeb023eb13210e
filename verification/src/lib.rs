//! The buffer and drawing engine of an ASCII-art diagram editor.
//!
//! A diagram is a grid of characters. Drawing stages edits on top of the
//! committed rows; a flush writes them in. Lines are rasterized cell by
//! cell, connectors bend or find their way around what is drawn, and every
//! committed change can be undone.
//!
//! - [`geometry`]: positions, distances and slopes
//! - [`glyph`]: the glyphs and their precedence
//! - [`rows`] and [`grid`]: the rows of characters and the buffer over them
//! - [`line`], [`snap`], [`arrow`], [`route`], [`shapes`]: what can be drawn
//! - [`tools`], [`text`], [`toolbox`]: the tools that draw it
//! - [`history`]: the editor, with undo and redo
//! - [`scroll`]: scrolling and the size of the canvas
//! - [`laws`]: what holds of every buffer and every editor

pub mod arrow;
pub mod geometry;
pub mod glyph;
pub mod grid;
pub mod history;
pub mod laws;
pub mod line;
pub mod route;
pub mod rows;
pub mod scroll;
pub mod shapes;
pub mod snap;
pub mod text;
pub mod toolbox;
pub mod tools;
