//! Grid-of-workspaces navigation engine.
//!
//! Activities are named groups of nine workspaces arranged in a 3x3 grid.
//! This library holds the grid model, the navigation arithmetic, the
//! edge-trigger decision logic for the mouse loop, and the animation
//! keyword selection; all compositor I/O lives outside it.

pub mod config;
pub mod grid;
pub mod mouse;
pub mod settings;
pub mod state;
pub mod text;
