//! A cgroup hierarchy seen as a tree of directories.
//!
//! The library decides and the caller acts: it computes which path to touch
//! and what follows from the filesystem's answer, and leaves the system calls
//! themselves to the caller.

pub mod children;
pub mod laws;
pub mod lookup;
pub mod node;
pub mod path;
pub mod query;
pub mod snapshot;
