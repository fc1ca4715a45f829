//! Conway's Game of Life on a fixed-size rectangular grid with hard edges.
//!
//! The library holds the transition engine (neighbor counting and the
//! birth/survival/death rule), the stability detector, the preset starting
//! grids, and the pure part of the renderer. The surrounding program does
//! the terminal I/O and the inter-frame delay.

pub mod game;
pub mod patterns;
pub mod render;
