//! A second form of the helper's command line, where `stop` takes the pid.
use vstd::prelude::*;

verus! {

/// Decay GHA CLI
#[derive(Debug)]
pub struct Cli {
    pub command: Commands,
}

#[derive(Debug)]
pub enum Commands {
    /// Starts the given Decay server
    Start {
        /// Path to the Decay server binary
        binary_path: String,
        /// Port to bind the Decay server to during startup
        port: String,
    },
    /// Stop a previusly started Decay server using this CLI
    Stop {
        /// The pid of the Decay server
        pid: String,
    },
}

} // verus!
