//! Device and swapchain negotiation for a Vulkan rendering engine.
//!
//! The crate holds the decisions an engine takes while it starts up: which
//! physical device and queue family to render and present with, what to ask
//! of the logical device, and which swapchain parameters follow from the
//! constraints a surface reports. Talking to the driver and the window system
//! is left to the caller, who feeds the answers to [`engine::Engine`].

pub mod device;
pub mod engine;
pub mod error;
pub mod extensions;
pub mod swapchain;
