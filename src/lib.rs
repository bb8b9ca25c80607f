//! Bookkeeping and interval logic of a small 2D ball game: which buttons are held, the
//! ids handed out to scene objects, the screen's size, and the ordering helpers that the
//! separating-axis collision test is built on.

pub mod game;
pub mod sat;
pub mod utils;
