//! Runtime configuration of the upload service.
//!
//! A configuration is loaded once at startup from a config file by the
//! surrounding process and then overridden by command-line values, field
//! by field, through the setters below.  It is immutable afterwards.

use vstd::prelude::*;

verus! {

/// Configuration of the http server: where it binds and under what name.
pub struct ServerConfig {
    pub host: String,
    pub ip: String,
    pub port: u16,
}

/// Tls settings.  Declared in the config file but unused by the core.
pub struct TlsConfig {
    pub enable: bool,
    pub certificate_path: Option<String>,
    pub key_path: Option<String>,
}

/// The resolved runtime configuration: the server block and the root
/// directory under which uploaded files are stored.
pub struct RuntimeConfig {
    pub server_config: ServerConfig,
    pub fs_root: String,
}

impl ServerConfig {
    /// Overrides the host, leaving the other fields as they were.
    pub fn server_host(&mut self, host: String)
        ensures
            final(self).host@ == host@,
            final(self).ip@ == old(self).ip@,
            final(self).port == old(self).port,
    {
        self.host = host;
    }

    /// Overrides the ip, leaving the other fields as they were.
    pub fn server_ip(&mut self, ip: String)
        ensures
            final(self).ip@ == ip@,
            final(self).host@ == old(self).host@,
            final(self).port == old(self).port,
    {
        self.ip = ip;
    }

    /// Overrides the port, leaving the other fields as they were.
    pub fn server_port(&mut self, port: u16)
        ensures
            final(self).port == port,
            final(self).host@ == old(self).host@,
            final(self).ip@ == old(self).ip@,
    {
        self.port = port;
    }
}

impl RuntimeConfig {
    /// Overrides the server host, leaving everything else as it was.
    pub fn server_host(&mut self, host: String)
        ensures
            final(self).server_config.host@ == host@,
            final(self).server_config.ip@ == old(self).server_config.ip@,
            final(self).server_config.port == old(self).server_config.port,
            final(self).fs_root@ == old(self).fs_root@,
    {
        self.server_config.server_host(host);
    }

    /// Overrides the server ip, leaving everything else as it was.
    pub fn server_ip(&mut self, ip: String)
        ensures
            final(self).server_config.ip@ == ip@,
            final(self).server_config.host@ == old(self).server_config.host@,
            final(self).server_config.port == old(self).server_config.port,
            final(self).fs_root@ == old(self).fs_root@,
    {
        self.server_config.server_ip(ip);
    }

    /// Overrides the server port, leaving everything else as it was.
    pub fn server_port(&mut self, port: u16)
        ensures
            final(self).server_config.port == port,
            final(self).server_config.host@ == old(self).server_config.host@,
            final(self).server_config.ip@ == old(self).server_config.ip@,
            final(self).fs_root@ == old(self).fs_root@,
    {
        self.server_config.server_port(port);
    }

    /// Applies the command-line overrides to a loaded configuration in
    /// one fixed order: host, then ip, then port.  The root directory
    /// has no override and stays as the file gave it.
    pub fn apply_overrides(&mut self, host: String, ip: String, port: u16)
        ensures
            final(self).server_config.host@ == host@,
            final(self).server_config.ip@ == ip@,
            final(self).server_config.port == port,
            final(self).fs_root@ == old(self).fs_root@,
    {
        self.server_host(host);
        self.server_ip(ip);
        self.server_port(port);
    }
}

} // verus!
