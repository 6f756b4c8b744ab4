//! Window lifecycle and frame-pipeline engine for embedding a retained-mode UI
//! toolkit inside the native windows of a host application.
//!
//! The library holds the decisions: which host events become toolkit events,
//! when a window leaves the staging slot, when a surface is reconfigured, what
//! happens after a failed frame, and which cursor icon the host is asked to
//! show. Everything that touches the window system, the GPU or floating-point
//! geometry is done by the caller, who feeds the outcomes back in.
use vstd::prelude::*;

pub mod cursor;
pub mod event;
pub mod surface;
pub mod window;
pub mod registry;
pub mod plugin;

verus! {

} // verus!
