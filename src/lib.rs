//! Presentation engine logic beneath a real-time Vulkan renderer: surface
//! negotiation, frame-slot and presentable-image synchronization indexing,
//! device ranking, pipeline layout description and the frame-loop decisions.
//!
//! Everything that talks to the driver lives with the caller; this crate
//! decides which handle to use, which image count to ask for and what to do
//! with every result the driver reports.

pub mod surface;
pub mod frame_sync;
pub mod device;
pub mod pipeline;
pub mod frame_loop;
pub mod data;
pub mod frame_plan;
