//! The decisions of the registry's HTTP endpoints.
use vstd::prelude::*;
use crate::ip::{ip_string, ip_text, Ipv4};
use crate::key::{parse_wireguard_key, wireguard_key_decoded};
use crate::registry::error::ErrorKind;
use crate::registry::peer::{DeregisterRequest, Peer, PeerUpdate, RegisterRequest};
use crate::registry::storage::registered_peer;

verus! {

/// The registration announced to connected clients: the registered peer
/// with its mesh address, as the store lists it afterwards.
pub fn peer_update_for(req: &RegisterRequest, mesh_ip: Ipv4) -> (u: PeerUpdate)
    ensures
        u.peer@ == registered_peer(*req, mesh_ip),
        u.peer.public_key@ == req.public_key@,
        u.peer.public_ip@ == ip_text(req.public_ip),
        u.peer.port@ == req.port@,
        u.peer.mesh_ip == mesh_ip,
        u.peer.allowed_ips@ == req.allowed_ips@,
{
    let peer = Peer {
        public_key: String::from_str(req.public_key.as_str()),
        public_ip: ip_string(req.public_ip),
        port: req.port.clone(),
        mesh_ip,
        allowed_ips: req.allowed_ips.clone(),
    };
    assert(peer.allowed_ips@ =~= req.allowed_ips@);
    PeerUpdate { peer }
}

/// A deregistration goes ahead only for a WireGuard key.
pub fn check_deregistration(req: &DeregisterRequest) -> (r: Result<(), ErrorKind>)
    ensures
        r is Ok <==> wireguard_key_decoded(req.public_key@) is Some,
        r matches Err(e) ==> e matches ErrorKind::InvalidKey { public_key } && public_key@
            == req.public_key@,
{
    match parse_wireguard_key(req.public_key.as_str()) {
        Ok(_) => Ok(()),
        Err(_) => Err(ErrorKind::InvalidKey { public_key: req.public_key.clone() }),
    }
}

} // verus!
