//! Host operating-system detection: which platform family the process runs on,
//! its name, version and architecture, and one platform-specific detail.
//!
//! The library decides and parses; the caller runs the queries it asks for
//! (commands, a file read) and hands back what they produced.
use vstd::prelude::*;

pub mod os_detect;
pub mod laws;
pub mod text;
