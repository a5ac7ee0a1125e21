//! Decision logic of a small GUI demo: device and present-mode selection,
//! swapchain sizing, per-frame widget-tree declaration, and the application
//! state that the widgets mutate.

pub mod device;
pub mod gui;
pub mod renderer;
pub mod state;
