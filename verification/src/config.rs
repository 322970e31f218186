//! Runtime configuration of the agent, immutable after load.

use std::collections::HashMap;
use vstd::prelude::*;
use vstd::string::StringExecFns;

verus! {

/// Logging verbosity levels, mirroring the levels the logging collaborator
/// understands.  Pass-through for the core.
#[derive(Clone, Copy, Debug, PartialEq, Eq, Structural)]
pub enum Verbosity {
    Off,
    Error,
    Warn,
    Info,
    Debug,
    Trace,
}

/// Logging configuration: an optional verbosity and the log file path.
/// Both are consumed by the logging collaborator; the core only carries them.
#[derive(Debug)]
pub struct LoggerConfig {
    pub verbosity: Option<Verbosity>,
    pub log_path: String,
}

impl LoggerConfig {
    pub fn new() -> (c: LoggerConfig)
        ensures
            c.verbosity is None,
            c.log_path@ == "/var/log/helmdall.log"@,
    {
        LoggerConfig { verbosity: None, log_path: String::from_str("/var/log/helmdall.log") }
    }
}

/// One audit script: a name, the script path, its arguments, environment
/// and an optional timeout.  Opaque to the core.
#[derive(Debug)]
pub struct ScriptConfig {
    pub name: String,
    pub path: String,
    pub args: Vec<String>,
    pub env: HashMap<String, String>,
    pub timeout: Option<String>,
}

/// A named group of audit scripts.  Opaque to the core.
#[derive(Debug)]
pub struct ScriptGroup {
    pub name: String,
    pub scripts: Vec<ScriptConfig>,
}

/// The agent's configuration.
///
/// Invariant after load ([`Config::valid`]): `socket_key`, `client_name`
/// and `api_uri` are non-empty.
#[derive(Debug)]
pub struct Config {
    pub socket_key: String,
    pub client_name: String,
    pub api_uri: String,
    pub audit_options: Vec<ScriptGroup>,
    pub logger: LoggerConfig,
    pub plugin_path: String,
}

impl Config {
    /// The invariant a loaded configuration must satisfy: the credential,
    /// the client identifier and the control-plane URL are all non-empty.
    pub open spec fn valid(&self) -> bool {
        &&& self.socket_key@.len() > 0
        &&& self.client_name@.len() > 0
        &&& self.api_uri@.len() > 0
    }

    /// The placeholder configuration written to the `.example` sibling file
    /// when no configuration could be loaded.
    pub fn new() -> (c: Config)
        ensures
            c.socket_key@ == "CLIENT_ORIG-dummy"@,
            c.client_name@ == "arch-server"@,
            c.api_uri@ == "https://3c41ca28-7235-4fb0-8d1f-17947f8a053b.mock.pstmn.io"@,
            c.audit_options@.len() == 0,
            c.logger.verbosity is None,
            c.logger.log_path@ == "/var/log/helmdall.log"@,
            c.plugin_path@ == "./plugins"@,
            c.valid(),
    {
        proof {
            reveal_strlit("CLIENT_ORIG-dummy");
            reveal_strlit("arch-server");
            reveal_strlit("https://3c41ca28-7235-4fb0-8d1f-17947f8a053b.mock.pstmn.io");
            reveal_strlit(".");
            reveal_strlit("/plugins");
            reveal_strlit("./plugins");
            assert("."@ + "/plugins"@ =~= "./plugins"@);
        }
        Config {
            socket_key: String::from_str("CLIENT_ORIG-dummy"),
            client_name: String::from_str("arch-server"),
            api_uri: String::from_str("https://3c41ca28-7235-4fb0-8d1f-17947f8a053b.mock.pstmn.io"),
            audit_options: Vec::new(),
            logger: LoggerConfig::new(),
            plugin_path: default_plugins_path(None),
        }
    }

    /// Assembles a configuration from loaded field values, upholding the
    /// load invariant: `None` exactly when one of the three required fields
    /// is empty.
    pub fn from_parts(
        socket_key: String,
        client_name: String,
        api_uri: String,
        audit_options: Vec<ScriptGroup>,
        logger: LoggerConfig,
        plugin_path: String,
    ) -> (r: Option<Config>)
        ensures
            (r is Some <==> socket_key@.len() > 0 && client_name@.len() > 0 && api_uri@.len()
                > 0),
            r matches Some(c) ==> {
                &&& c.socket_key@ == socket_key@
                &&& c.client_name@ == client_name@
                &&& c.api_uri@ == api_uri@
                &&& c.audit_options == audit_options
                &&& c.logger == logger
                &&& c.plugin_path@ == plugin_path@
                &&& c.valid()
            },
    {
        if socket_key.as_str().is_empty() || client_name.as_str().is_empty()
            || api_uri.as_str().is_empty() {
            None
        } else {
            Some(Config { socket_key, client_name, api_uri, audit_options, logger, plugin_path })
        }
    }

    pub fn get_socket_key(&self) -> (r: &str)
        ensures
            r@ == self.socket_key@,
    {
        self.socket_key.as_str()
    }

    pub fn get_client_name(&self) -> (r: &str)
        ensures
            r@ == self.client_name@,
    {
        self.client_name.as_str()
    }

    pub fn get_api_uri(&self) -> (r: &str)
        ensures
            r@ == self.api_uri@,
    {
        self.api_uri.as_str()
    }

    pub fn get_logger_config(&self) -> (r: &LoggerConfig)
        ensures
            *r == self.logger,
    {
        &self.logger
    }

    pub fn get_audit_options(&self) -> (r: &Vec<ScriptGroup>)
        ensures
            *r == self.audit_options,
    {
        &self.audit_options
    }

    pub fn get_plugin_path(&self) -> (r: &str)
        ensures
            r@ == self.plugin_path@,
    {
        self.plugin_path.as_str()
    }
}

/// The default plugin directory: `{home}/plugins` under the home directory
/// the environment reported, `./plugins` where there is none.
pub fn default_plugins_path(home: Option<String>) -> (r: String)
    ensures
        home matches Some(h) ==> r@ == h@ + "/plugins"@,
        home is None ==> r@ == "."@ + "/plugins"@,
{
    match home {
        Some(h) => h.concat("/plugins"),
        None => String::from_str(".").concat("/plugins"),
    }
}

} // verus!
