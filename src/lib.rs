//! Text-mode display: an 80 x 25 grid of character cells driven through
//! volatile accesses, and a writer with line wrap and scrolling on top of it.
pub mod color;

pub mod buffer;
pub mod model;
pub mod writer;
pub mod laws;
pub mod console;
