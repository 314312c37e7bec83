//! A bridge between a native windowing subsystem and per-window callback
//! objects.
//!
//! The native subsystem calls one entry point, the trampoline, for every
//! event of every window. The bridge hands each event to the callback of the
//! window it is for, keeps that callback alive for as long as the window
//! exists and for as long as a call into it is in flight, and destroys it
//! once, when the window has been torn down and the last such call has
//! returned.
//!
//! The calls into the native subsystem are made by whoever drives the
//! bridge. What is decided here is what those calls are given and what is
//! done with what they return.

pub mod binding;
pub mod cell;
pub mod class;
pub mod error;
pub mod handle;
pub mod laws;
pub mod message;
pub mod protocol;
pub mod pump;
pub mod slot;
pub mod window;

pub use crate::binding::{referent, Binding, Completion, Departure, InFlight, Reply, WindowProc};
pub use crate::cell::{OwnershipCell, Retained};
pub use crate::class::{pointer_or_null, WindowClass, WindowClassBuilder};
pub use crate::error::Error;
pub use crate::handle::Handle;
pub use crate::slot::Slot;
pub use crate::window::WindowBuilder;
