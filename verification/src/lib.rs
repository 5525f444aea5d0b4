//! Game rules of a grid snake ("cube eater") game: the snake's moves,
//! collisions, growth, food placement, steering from keyboard input and the
//! list of sprites a frame draws. Window, drawing, timing and networking
//! live outside this crate; they hand plain values in and take plain
//! values out.

pub mod engine;
pub mod grid;
pub mod remote;
pub mod game;
pub mod laws;
