//! A freehand drawing canvas for the terminal: the canvas model, the mapping
//! from input events to transitions, and the frames that redraw the screen.

pub mod escape;
pub mod palette;
pub mod canvas;
pub mod event;
pub mod render;
pub mod laws;
