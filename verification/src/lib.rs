//! A terminal drawing engine: colored character cells, frames composed from
//! animated sprites, and the escape-sequence text that puts a frame on screen.
//!
//! Everything here computes on plain values. Reading entropy, querying the
//! terminal and writing to it are left to the caller, which hands in what it
//! read and writes out what it gets back.
//!
//! - `rand`: entropy bytes decoded into integers, draws folded into a range,
//!   and the shuffle.
//! - `perlin`: the table of a noise field, the hashes of a grid cell's
//!   corners and the gradient that a hash selects.
//! - `terminal`: cells, palette colors, the composition of a frame and the
//!   text that shows it.
//! - `sprite` and `sprites`: what an animated object is, and the checkerboard.
//! - `session`: raw mode and the alternate screen, entered and left in order.
//! - `keyboard`: key codes and the keys held down.
//! - `shapes`: outlines in plain characters.

pub mod keyboard;
pub mod perlin;
pub mod rand;
pub mod session;
pub mod shapes;
pub mod sprite;
pub mod sprites;
pub mod terminal;
