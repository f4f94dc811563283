//! The persisted configuration: which role this machine plays and the
//! settings of that role.
use crate::text::string_views;
use vstd::prelude::*;

verus! {

#[derive(Debug, Clone, Copy, PartialEq, Eq, Structural)]
pub enum Role {
    Server,
    Client,
}

#[derive(Debug, Clone, PartialEq, Eq)]
pub struct SyncPairConfig {
    pub name: String,
    pub local: String,
    pub remote: String,
    pub mode: String,
}

#[derive(Debug, Clone, PartialEq, Eq)]
pub struct ServerConfig {
    pub host_label: String,
    pub default_session: String,
    pub boot_sessions: Vec<String>,
    pub tailscale_dns: Option<String>,
}

#[derive(Debug, Clone, PartialEq, Eq)]
pub struct ClientConfig {
    pub paired_server: String,
    /// The user to reach the server as over SSH, when known.
    pub server_ssh_user: Option<String>,
    /// Where `etterminal` lives on the server, when known.
    pub server_etterminal_path: Option<String>,
    pub pinned: Vec<String>,
    pub sync_pairs: Vec<SyncPairConfig>,
}

#[derive(Debug, Clone, Copy, PartialEq, Eq)]
pub struct SessionConfig {
    pub auto_attach: bool,
}

#[derive(Debug, Clone, PartialEq, Eq)]
pub struct Config {
    pub role: Role,
    pub server: Option<ServerConfig>,
    pub client: Option<ClientConfig>,
    pub session: SessionConfig,
}

pub struct SyncPairView {
    pub name: Seq<char>,
    pub local: Seq<char>,
    pub remote: Seq<char>,
    pub mode: Seq<char>,
}

pub struct ServerConfigView {
    pub host_label: Seq<char>,
    pub default_session: Seq<char>,
    pub boot_sessions: Seq<Seq<char>>,
    pub tailscale_dns: Option<Seq<char>>,
}

pub struct ClientConfigView {
    pub paired_server: Seq<char>,
    pub server_ssh_user: Option<Seq<char>>,
    pub server_etterminal_path: Option<Seq<char>>,
    pub pinned: Seq<Seq<char>>,
    pub sync_pairs: Seq<SyncPairView>,
}

pub struct ConfigView {
    pub role: Role,
    pub server: Option<ServerConfigView>,
    pub client: Option<ClientConfigView>,
    pub auto_attach: bool,
}

/// The character view of an optional string.
pub open spec fn opt_view(o: Option<String>) -> Option<Seq<char>> {
    match o {
        Some(s) => Some(s@),
        None => None,
    }
}

impl View for SyncPairConfig {
    type V = SyncPairView;

    open spec fn view(&self) -> SyncPairView {
        SyncPairView {
            name: self.name@,
            local: self.local@,
            remote: self.remote@,
            mode: self.mode@,
        }
    }
}

/// The views of a sequence of sync pairs.
pub open spec fn pair_views(v: Seq<SyncPairConfig>) -> Seq<SyncPairView> {
    v.map_values(|p: SyncPairConfig| p@)
}

impl View for ServerConfig {
    type V = ServerConfigView;

    open spec fn view(&self) -> ServerConfigView {
        ServerConfigView {
            host_label: self.host_label@,
            default_session: self.default_session@,
            boot_sessions: string_views(self.boot_sessions@),
            tailscale_dns: opt_view(self.tailscale_dns),
        }
    }
}

impl View for ClientConfig {
    type V = ClientConfigView;

    open spec fn view(&self) -> ClientConfigView {
        ClientConfigView {
            paired_server: self.paired_server@,
            server_ssh_user: opt_view(self.server_ssh_user),
            server_etterminal_path: opt_view(self.server_etterminal_path),
            pinned: string_views(self.pinned@),
            sync_pairs: pair_views(self.sync_pairs@),
        }
    }
}

impl View for Config {
    type V = ConfigView;

    open spec fn view(&self) -> ConfigView {
        ConfigView {
            role: self.role,
            server: match self.server {
                Some(s) => Some(s@),
                None => None,
            },
            client: match self.client {
                Some(c) => Some(c@),
                None => None,
            },
            auto_attach: self.session.auto_attach,
        }
    }
}

} // verus!
