//! Scrolling-text animation for a 5x5 LED matrix.
//!
//! A message is expanded, character by character, into a fixed sequence of
//! 5x5 frames that slide each glyph across the display from right to left.
//! [`font`] holds the per-character movement table and the conversion from
//! its packed row bytes to renderer-ready pixel grids; [`scroller`] holds
//! the animation state machine that plays the frames back one at a time.

pub mod font;
pub mod scroller;

pub use scroller::{Animate, CapacityError, ScrollMessage};
