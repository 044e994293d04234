//! A safe surface over the firmware of a small calculator-class device:
//! colours, screen geometry, a bounded text sink, random value generation,
//! the keyboard and event model, and the plan of the failure report.
//!
//! Everything here is plain, verified logic. The firmware calls themselves
//! (drawing, sleeping, the clock, the entropy word, the keyboard scan) are made
//! by the program around this library, which hands their results in as values.
pub mod color;
pub mod geometry;
pub mod input;
pub mod random;
pub mod report;
pub mod text_buf;

pub use color::Color;
pub use input::{Event, Key, KeyboardState};
pub use geometry::{Point, Rect, SCREEN_HEIGHT, SCREEN_WIDTH};
pub use text_buf::{FormatError, TextBuf, TEXTBUF_SIZE};
