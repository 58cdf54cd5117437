//! A single-shot image pipeline, seen from the side of its decisions.
//!
//! One picture is loaded, turned to gray, equalised, blurred, reduced to its
//! edges, scaled to a fixed size, compressed, wrapped in a one-field JSON
//! object and sent in one datagram. The pixel work and the socket belong to
//! the caller; this crate holds what is decided around them: which buffers
//! are acceptable, which step comes next, what goes on the wire, and which
//! error ends the run.

pub mod error;
pub mod image;
pub mod network;
pub mod pipeline;
pub mod processing;
pub mod base64_text;
