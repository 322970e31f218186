//! Client agent for the helmdall control plane.
//!
//! The crate holds the decision logic of the agent: configuration data and
//! its invariant, classification of control-plane ping results, the retry
//! schedule of the bootstrap handshake, the WebSocket authentication frame
//! and opcode dispatch, the local-socket read loop decisions, and the map
//! from fatal errors to process exit codes.  The surrounding I/O (HTTP,
//! WebSocket and Unix-socket transports, logging, the YAML config file)
//! lives outside the library and hands it plain values.

pub mod api_comms;
pub mod config;
pub mod control_plane;
pub mod errors;
pub mod local;
pub mod remote;
pub mod supervisor;
