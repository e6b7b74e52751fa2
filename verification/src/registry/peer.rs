//! What the registry and its clients exchange about peers.
use vstd::prelude::*;
use crate::ip::{IpAddress, IpNet, Ipv4};
use crate::key::WireguardPublicKey;

verus! {

/// A device of the mesh as the registry announces it.
#[derive(Clone, Debug)]
pub struct Peer {
    pub public_key: String,
    pub public_ip: String,
    pub port: String,
    pub mesh_ip: Ipv4,
    pub allowed_ips: Vec<IpNet>,
}

/// A peer as plain values.
pub struct PeerView {
    pub public_key: Seq<char>,
    pub public_ip: Seq<char>,
    pub port: Seq<char>,
    pub mesh_ip: Ipv4,
    pub allowed_ips: Seq<IpNet>,
}

impl View for Peer {
    type V = PeerView;

    open spec fn view(&self) -> PeerView {
        PeerView {
            public_key: self.public_key@,
            public_ip: self.public_ip@,
            port: self.port@,
            mesh_ip: self.mesh_ip,
            allowed_ips: self.allowed_ips@,
        }
    }
}

/// A message the registry sends to a client over its WebSocket.
#[derive(Clone, Debug)]
pub enum PeerMessage {
    /// The whole list of peers, sent once a client connects.
    HydratePeers { peers: Vec<Peer> },
    /// A peer that has just registered.
    PeerUpdate { peer: Peer },
}

/// A registration, broadcast to every connected client.
#[derive(Clone, Debug)]
pub struct PeerUpdate {
    pub peer: Peer,
}

/// A device asking to join the mesh.
#[derive(Clone, Debug)]
pub struct RegisterRequest {
    pub public_ip: IpAddress,
    pub public_key: WireguardPublicKey,
    pub port: String,
    pub allowed_ips: Vec<IpNet>,
}

/// The registry's answer to a registration: the device's mesh address.
#[derive(Clone, Copy, Debug)]
pub struct RegisterResponse {
    pub mesh_ip: Ipv4,
}

/// A device asking to leave the mesh.
#[derive(Clone, Debug)]
pub struct DeregisterRequest {
    pub public_key: String,
}

} // verus!
