//! Bridges a remote-control command protocol to an application running in a
//! mobile simulator.
//!
//! The library decides and computes; it performs no input or output itself.
//! A caller runs the tools and requests that the library asks for and hands
//! back what came of them.

pub mod address;
pub mod bridge;
pub mod command;
pub mod error;
pub mod extension;
pub mod json;
pub mod lifecycle;
pub mod ports;
pub mod provision;
pub mod script;
pub mod search;
pub mod simctl;
pub mod text;
