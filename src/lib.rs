//! Node configuration resolution and span instrumentation primitives.
//!
//! - [`paths`]: joining of slash-separated directory paths.
//! - [`node_name`]: bounded-length random node names.
//! - [`config`]: the override-or-default cascade that turns a sparse set of
//!   caller-supplied facets into a complete node [`config::Configuration`].
//! - [`spans`]: scoped spans over a recording capability, the tracing enable
//!   flag, and the reserved keys used to forward span metadata out of a
//!   sandboxed runtime.
pub mod config;
pub mod node_name;
pub mod paths;
pub mod spans;

pub use node_name::generate_node_name;
