//! The client's configuration.
use vstd::prelude::*;
use crate::ip::IpNet;

verus! {

/// The keepalive interval, in seconds, used when none is configured.
pub const DEFAULT_KEEPALIVE: u16 = 25;

/// The name of the WireGuard interface the client manages.
pub const INTERFACE_NAME: &'static str = "mesh0";

/// The client's configuration.
#[derive(Clone, Debug)]
pub struct Config {
    pub interface: InterfaceConfig,
    pub server: ServerConfig,
}

/// The local WireGuard interface.
#[derive(Clone, Debug)]
pub struct InterfaceConfig {
    pub private_key: String,
    pub public_key: String,
    pub listen_port: u16,
    pub persistent_keepalive: u16,
    pub allowed_ips: Option<Vec<IpNet>>,
}

/// Where the registry is.
#[derive(Clone, Debug)]
pub struct ServerConfig {
    pub ws_url: String,
    pub url: String,
}

/// The listening port used when none is configured: 51820.
pub fn default_listen_port() -> (r: u16)
    ensures
        r == 51820,
{
    51820
}

/// The keepalive interval used when none is configured.
pub fn default_keepalive() -> (r: u16)
    ensures
        r == DEFAULT_KEEPALIVE,
{
    DEFAULT_KEEPALIVE
}

} // verus!
