//! The native side of the threadbound desktop application: the supervisor of
//! the backend process and the command bridge with its filesystem probes.

pub mod bridge;
pub mod probe;
pub mod supervisor;
