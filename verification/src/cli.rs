//! The `skynet` command line: its sub-commands and which of them run.

use vstd::prelude::*;

verus! {

/// A sub-command of `skynet`.
#[derive(Debug, Clone, PartialEq, Eq)]
pub enum Command {
    /// Expose an HTTP service on FTNet.
    ExposeHttp { port: u16, host: String },
    /// Listen for HTTP requests and forward them to an id52 (or to any).
    HttpBridge { proxy_target: Option<String>, port: u16 },
    /// Expose a TCP service on FTNet.
    ExposeTcp { port: u16, host: String },
    /// Listen for TCP connections and forward them to an id52.
    TcpBridge { proxy_target: String, port: u16 },
}

/// What `skynet` starts for a command.
#[derive(Debug, Clone, PartialEq, Eq)]
pub enum Launch {
    /// Expose the HTTP service at `host:port`.
    ExposeHttp { host: String, port: u16 },
    /// Run the HTTP bridge on `port`.
    HttpBridge { proxy_target: Option<String>, port: u16 },
    /// Expose the TCP service at `host:port`.
    ExposeTcp { host: String, port: u16 },
    /// The command is not supported: `skynet` reports it and fails.
    Unsupported(Command),
}

impl Command {
    /// What runs for this command: the three supported commands start their
    /// service with the command's arguments; the TCP bridge is unsupported.
    pub fn launch(self) -> (l: Launch)
        ensures
            match self {
                Command::ExposeHttp { port, host } => l == Launch::ExposeHttp { host, port },
                Command::HttpBridge { proxy_target, port } => l == Launch::HttpBridge {
                    proxy_target,
                    port,
                },
                Command::ExposeTcp { port, host } => l == Launch::ExposeTcp { host, port },
                Command::TcpBridge { .. } => l == Launch::Unsupported(self),
            },
    {
        match self {
            Command::ExposeHttp { port, host } => Launch::ExposeHttp { host, port },
            Command::HttpBridge { proxy_target, port } => Launch::HttpBridge { proxy_target, port },
            Command::ExposeTcp { port, host } => Launch::ExposeTcp { host, port },
            Command::TcpBridge { proxy_target, port } => Launch::Unsupported(
                Command::TcpBridge { proxy_target, port },
            ),
        }
    }
}

} // verus!
