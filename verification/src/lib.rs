//! Run external executables as jobs: spawn a process, then wait for it or
//! poll it, and read back a terminal status that classifies how it ended.

pub mod job;
