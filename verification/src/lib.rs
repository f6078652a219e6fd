//! Decision core of a small real-time scene: which resources each
//! drawable needs, how an image becomes texture data, in what order a
//! frame's commands are issued, and how the frame loop reacts to window
//! events. The window, the GPU and the clock stay with the caller.

pub mod compositor;
pub mod drawable;
pub mod driver;
pub mod error;
pub mod mesh;
pub mod shapes;
pub mod texture;
