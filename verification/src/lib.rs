//! A verified model of two small terminal programs: an 8x8 board with a
//! movable highlighted cell, and a fixed four-panel screen layout.
//!
//! The library holds everything the programs decide or compute: the cursor
//! state machine, the three-way cell colour rule, the rectangle splits of the
//! panel layout, and the render/read event loop. Terminal plumbing (raw mode,
//! drawing, blocking reads) is left to the surrounding binary, which hands the
//! library plain values and draws what it returns.

pub mod board;
pub mod event;
pub mod geometry;
pub mod panels;

pub use event::{InputEvent, KeyCode, KeyEvent, KeyEventKind};
pub use geometry::Rect;
