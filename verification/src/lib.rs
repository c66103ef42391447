//! Tetra: a host agent for the Ultramarine Server web control plane.
//!
//! - [`agent`]: the outbound control-plane connection: its configuration, its frames, its TLS
//!   material and its reconnects.
//! - [`enrollment`]: the device-code enrollment of a host with a Dashboard.
//! - [`listing`] and [`args`]: what the command line shows and takes.

pub mod agent;
pub mod args;
pub mod enrollment;
pub mod json;
pub mod listing;
pub mod text;
