//! Session orchestration for driving shell commands against local and remote
//! targets: the command restriction policy, the session model and its
//! manager, the background job registry, the error taxonomy and the tool
//! layer of the agent protocol.
pub mod cli;
pub mod config;
pub mod error;
pub mod jobs;
pub mod logger;
pub mod manager;
pub mod mcp;
pub mod restriction;
pub mod session;
pub mod ssh;
pub mod sshconfig;
pub mod text;
