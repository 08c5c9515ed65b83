//! A text-mode display driver: an 80x25 grid of two-byte cells and a writer
//! that appends bytes on the bottom row, wrapping and scrolling as it goes.

pub mod buffer;
pub mod color;
pub mod laws;
pub mod writer;

pub use buffer::{raw_print, Buffer, BUFFER_HEIGHT, BUFFER_WIDTH};
pub use color::{Color, ColorCode, ScreenChar};
pub use writer::{clear_screen, Writer};
