//! Server configuration, immutable once the server starts.

use vstd::prelude::*;

verus! {

/// Startup configuration consumed by the server core.
#[derive(Debug, Clone)]
pub struct ServerConfig {
    /// Bind host.
    pub host: String,
    /// Bind port.
    pub port: u16,
    /// Worker pool size.
    pub threads: usize,
    /// Directory that constrains path resolution.
    pub document_root: String,
    /// Admission cap on concurrent connections.
    pub max_connections: usize,
    /// Per-response size limit in bytes.
    pub max_file_size: u64,
    /// Readiness timeout in seconds.
    pub select_timeout: u64,
}

impl Default for ServerConfig {
    /// The built-in defaults: the local host on port 9898, ten workers, the
    /// `./static` root, a thousand connections, a 128 MiB size limit and a
    /// one-second readiness timeout.
    fn default() -> (c: ServerConfig)
        ensures
            c.host@ == "127.0.0.1"@,
            c.port == 9898,
            c.threads == 10,
            c.document_root@ == "./static"@,
            c.max_connections == 1000,
            c.max_file_size == 134217728,
            c.select_timeout == 1,
    {
        ServerConfig {
            host: "127.0.0.1".to_owned(),
            port: 9898,
            threads: 10,
            document_root: "./static".to_owned(),
            max_connections: 1000,
            max_file_size: 134217728,
            select_timeout: 1,
        }
    }
}

} // verus!
