//! Signposts: point events and timed intervals recorded through a platform
//! tracing backend, with a lazily resolved, once-only backend handle.
//!
//! The library decides; it never calls the backend. Every operation yields
//! an [`Emission`], which names the backend primitive to perform next and
//! takes the backend's answer.

pub mod emission;
pub mod gate;
pub mod interleaving;
pub mod interval;
pub mod laws;
pub mod logger;

pub use crate::emission::{Emission, Reply, Request, Signpost, SignpostKind};
pub use crate::gate::{Admission, Gate, Handle};
pub use crate::interval::SignpostInterval;
pub use crate::logger::OsLog;
