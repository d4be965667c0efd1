//! The GitHub Actions helper that starts a Decay server and stops it again.
pub mod cli_commands;
pub mod commands;
pub mod gha_commands;
