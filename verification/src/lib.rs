//! Per-frame rendering core: queue-family selection, GPU buffer growth,
//! light aggregation into a packed storage buffer, and the swapchain
//! frame-synchronization state machine.

pub mod buffer;
pub mod camera;
pub mod errors;
pub mod frame;
pub mod light;
pub mod model;
pub mod queues;
pub mod swapchain;
