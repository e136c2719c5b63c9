//! Binds an application window to a GPU rendering context.
//!
//! The library selects a backend and adapter for the execution environment
//! (native host or embedded browser), negotiates device capability limits,
//! configures a presentation surface, and keeps the surface's dimensions in
//! step with the host window across resize events — which, in the browser
//! environment, arrive asynchronously through a host callback and are handed
//! to the render loop through a single-slot mailbox.

pub mod config;
pub mod environment;
pub mod error;
mod gpu;
pub mod limits;
pub mod mailbox;
pub mod screen;
