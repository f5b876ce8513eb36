//! A small 2D drawing library: a render-state stack of colors and affine
//! transforms, a vertex batcher that turns draw calls into GPU commands, and
//! the input and monitor bookkeeping of a window.
//!
//! Every scalar (a coordinate, a size, a color channel, a matrix entry) is a
//! signed 16.16 fixed-point number held in an `i32`: the raw value `r`
//! stands for `r / 65536`.

pub mod geometry;
pub mod state;
pub mod graphics;
pub mod input;
pub mod window;
pub mod monitor;
