//! The supervisor's bookkeeping: the paths the agent uses, the assembled
//! application state, and the map from fatal errors to process exit codes.

use crate::api_comms::ConnectionRequest;
use crate::config::Config;
use vstd::prelude::*;
use vstd::string::StringExecFns;

verus! {

/// The base directory of the agent: `{home}/Documents/helmdall` under the
/// home directory the environment reported, `.` where there is none.
pub fn default_base_path(home: Option<String>) -> (r: String)
    ensures
        home matches Some(h) ==> r@ == h@ + "/Documents/helmdall"@,
        home is None ==> r@ == "."@,
{
    match home {
        Some(h) => h.concat("/Documents/helmdall"),
        None => String::from_str("."),
    }
}

/// The configuration file path: `{base}/config.yaml`.
pub fn config_file_path(base: &str) -> (r: String)
    ensures
        r@ == base@ + "/config.yaml"@,
{
    String::from_str(base).concat("/config.yaml")
}

/// The sibling path the placeholder configuration is written to when the
/// configuration is missing or unparseable: `{config_path}.example`.
pub fn example_config_path(config_path: &str) -> (r: String)
    ensures
        r@ == config_path@ + ".example"@,
{
    String::from_str(config_path).concat(".example")
}

/// The local watchdog's socket path: `{base}/helmdall.sock`.
pub fn local_socket_path(base: &str) -> (r: String)
    ensures
        r@ == base@ + "/helmdall.sock"@,
{
    String::from_str(base).concat("/helmdall.sock")
}

/// The fatal conditions that end the process, each owned by the component
/// that reports it; the supervisor maps them to exit codes.
#[derive(Clone, Copy, Debug, PartialEq, Eq, Structural)]
pub enum FatalExit {
    ConfigMissing,
    ConfigWriteFailed,
    LoggerInitFailed,
    LocalBindFailed,
    AuthRejected { status: i32 },
}

/// The process exit code for each fatal condition: 2 for a missing or
/// unparseable configuration (after the `.example` file was written), 3
/// when writing that file failed, 1 for logger-init or local-socket
/// failures, and the server's status when the control plane rejected the
/// credentials.
pub fn exit_code(e: FatalExit) -> (c: i32)
    ensures
        e is ConfigMissing ==> c == 2,
        e is ConfigWriteFailed ==> c == 3,
        e is LoggerInitFailed ==> c == 1,
        e is LocalBindFailed ==> c == 1,
        e matches FatalExit::AuthRejected { status } ==> c == status,
{
    match e {
        FatalExit::ConfigMissing => 2,
        FatalExit::ConfigWriteFailed => 3,
        FatalExit::LoggerInitFailed => 1,
        FatalExit::LocalBindFailed => 1,
        FatalExit::AuthRejected { status } => status,
    }
}

/// The bootstrapped application: the base path, the loaded configuration
/// and the connection the control plane provisioned.  The transports the
/// watchdogs own live outside the library.
#[derive(Debug)]
pub struct Helmdall {
    pub path: String,
    pub cfg: Config,
    pub connection: ConnectionRequest,
}

impl Helmdall {
    /// Assembles the application state once the configuration is loaded
    /// and the control plane has provisioned a connection.
    pub fn assemble(path: String, cfg: Config, connection: ConnectionRequest) -> (h: Helmdall)
        requires
            cfg.valid(),
        ensures
            h.path@ == path@,
            h.cfg == cfg,
            h.connection == connection,
            h.cfg.valid(),
    {
        Helmdall { path, cfg, connection }
    }

    pub fn get_config(&self) -> (r: &Config)
        ensures
            *r == self.cfg,
    {
        &self.cfg
    }

    pub fn get_connection(&self) -> (r: &ConnectionRequest)
        ensures
            *r == self.connection,
    {
        &self.connection
    }
}

} // verus!
