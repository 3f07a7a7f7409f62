//! Decision logic of a single-triangle window: the swap target configuration
//! that follows the window's size, the device request, the fixed pipeline and
//! draw call, and the reaction to each window event.

pub mod device;
pub mod event;
pub mod pipeline;
pub mod state;
pub mod surface;
