//! Widget logic for a music player's chrome: a playlist view with a
//! scrolling window over its rows, progress bars that map a bounded value
//! to a filled pixel width, and the plain playlist behind them.
//!
//! Rendering and audio stay outside this crate; every widget here owns its
//! geometry and state as plain values, so the whole logic is verified.

pub mod geometry;
pub mod labels;
pub mod playlist;
pub mod progress_bar;
pub mod graphic_playlist;
