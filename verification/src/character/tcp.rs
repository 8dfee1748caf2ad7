//! Character servers that are reached over TCP.

use vstd::prelude::*;
use crate::character::{CharacterServer, ServerActivity, ServerInfo, ServerType};
use crate::config::login::CharacterServerConfig;

verus! {

/// A character server that this process is a client of.
pub struct TcpClient {
    pub name: String,
    /// IPv4 address, as a big-endian integer
    pub ip_addr: u32,
    pub port: u16,
    pub server_type: ServerType,
    pub active_users: usize,
}

impl CharacterServer for TcpClient {
    open spec fn spec_info(&self) -> ServerInfo {
        ServerInfo {
            ip_addr: self.ip_addr,
            port: self.port,
            name: self.name,
            active_users: self.active_users,
            server_type: self.server_type,
            server_activity: ServerActivity::Normal,
        }
    }

    fn info(&self) -> (info: ServerInfo) {
        ServerInfo {
            ip_addr: self.ip_addr,
            port: self.port,
            name: self.name.clone(),
            active_users: self.active_users,
            server_type: self.server_type,
            server_activity: ServerActivity::Normal,
        }
    }
}

/// A character server as the login server is configured with it.
pub struct TcpServer {
    pub name: String,
    /// IPv4 address, as a big-endian integer
    pub ip_addr: u32,
    pub port: u16,
    pub server_type: ServerType,
    pub active_users: usize,
}

impl CharacterServer for TcpServer {
    open spec fn spec_info(&self) -> ServerInfo {
        ServerInfo {
            ip_addr: self.ip_addr,
            port: self.port,
            name: self.name,
            active_users: self.active_users,
            server_type: self.server_type,
            server_activity: ServerActivity::Smooth,
        }
    }

    fn info(&self) -> (info: ServerInfo) {
        ServerInfo {
            ip_addr: self.ip_addr,
            port: self.port,
            name: self.name.clone(),
            active_users: self.active_users,
            server_type: self.server_type,
            server_activity: ServerActivity::Smooth,
        }
    }
}

impl TcpServer {
    /// The server that `config` describes. `ip_addr` is the address that
    /// `config.address` names, as a big-endian integer. The server is of
    /// the normal type and has no users yet.
    pub fn new(config: &CharacterServerConfig, ip_addr: u32) -> (server: Self)
        ensures
            server.ip_addr == ip_addr,
            server.name@ == config.name@,
            server.port == config.port,
            server.server_type == ServerType::Normal,
            server.active_users == 0,
    {
        TcpServer {
            ip_addr,
            name: config.name.clone(),
            port: config.port,
            server_type: ServerType::Normal,
            active_users: 0,
        }
    }
}

} // verus!
