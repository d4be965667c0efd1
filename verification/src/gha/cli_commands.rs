//! The helper's command line.
use vstd::prelude::*;

use crate::gha::gha_commands::PID_STATE_KEY;

verus! {

/// Decay GHA CLI
#[derive(Debug)]
pub struct Cli {
    pub command: Commands,
}

#[derive(Debug)]
pub enum Commands {
    /// Starts the given Decay server and
    /// store its pid on the Github state
    Start {
        /// Path to the Decay server binary
        binary_path: String,
        /// Port to bind the Decay server to during startup
        port: String,
    },
    /// Stop a process with the given ID
    StopWithPid {
        /// The pid of the Decay server
        pid: String,
    },
    /// Stop a previously running Decay server with
    /// its pid stored on the Github Actions runner state
    Stop,
}

/// What the helper does for a command.
#[derive(Debug)]
pub enum GhaAction {
    /// Spawn the server binary with `PORT` set to `port`, its standard output
    /// to `out.log` and its standard error to `err.log`, then save its pid
    /// under `pid_state_key`.
    StartServer { binary_path: String, port: String, pid_state_key: String },
    /// Stop the process with this pid.
    StopProcess { pid: String },
    /// Stop the process whose pid is saved under `pid_state_key`.
    StopSavedProcess { pid_state_key: String },
}

/// The action each command asks for.
pub fn plan(command: Commands) -> (r: GhaAction)
    ensures
        match command {
            Commands::Start { binary_path, port } => r matches GhaAction::StartServer {
                binary_path: b,
                port: p,
                pid_state_key,
            } && b == binary_path && p == port && pid_state_key@ == PID_STATE_KEY@,
            Commands::StopWithPid { pid } => r matches GhaAction::StopProcess { pid: p } && p
                == pid,
            Commands::Stop => r matches GhaAction::StopSavedProcess { pid_state_key }
                && pid_state_key@ == PID_STATE_KEY@,
        },
{
    match command {
        Commands::Start { binary_path, port } => GhaAction::StartServer {
            binary_path,
            port,
            pid_state_key: PID_STATE_KEY.to_owned(),
        },
        Commands::StopWithPid { pid } => GhaAction::StopProcess { pid },
        Commands::Stop => GhaAction::StopSavedProcess { pid_state_key: PID_STATE_KEY.to_owned() },
    }
}

} // verus!
