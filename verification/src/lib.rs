//! Device and resource negotiation for a minimal real-time rendering engine.
//!
//! Given the facts a graphics driver reports about the machine (queue family
//! capabilities, surface formats, present modes, surface capabilities and
//! extension names, all as plain values), this crate decides:
//!
//! - how each queue family is classified into a functional category,
//! - which family backs each functional role (main rendering, asynchronous
//!   compute, asynchronous transfer, sparse binding),
//! - which physical accelerator is selected among the candidates, and
//! - which swapchain parameters (format, present mode, extent, image count)
//!   are negotiated for the chosen accelerator and surface.
//!
//! The decisions are pure functions of the reported values; querying the
//! driver and creating the device live with the caller, which feeds the
//! query results in and carries the decisions back out.

pub mod allocation;
pub mod error;
pub mod gpu;
pub mod queuefamilies;
pub mod renderer;
