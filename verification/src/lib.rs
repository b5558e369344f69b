//! Core of a terminal pager that renders a text file with every line
//! horizontally centered, scrollable with the arrow keys.
//!
//! The crate holds the pure, verified parts: the grapheme-aware layout
//! engine, the scroll/event state machine, and the redraw planner that
//! decides exactly what each screen row must show.

pub mod layout;
pub mod redraw;
pub mod state;
