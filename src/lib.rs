//! Translation layer between an immediate-mode GUI's input and output model and
//! a windowing library's events, textures, cursors and draw calls.
//!
//! The window system's values are taken as plain data: the embedding converts
//! them, performs the native calls that the functions here decide on, and hands
//! back their outcomes.
pub mod keys;
pub mod input;
pub mod textures;
pub mod output;
pub mod render;
pub mod driver;
