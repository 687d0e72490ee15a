//! Vulkan-side activities.

pub mod gpu_trace;
