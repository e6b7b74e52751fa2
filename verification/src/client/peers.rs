//! Turning the registry's peers into WireGuard peer settings.
use vstd::prelude::*;
use crate::client::error::ErrorKind;
use crate::ip::{parse_socket_address, socket_address_from_text, IpNet, SocketAddress};
use crate::key::{parse_wireguard_key, wireguard_key_decoded, WgKey};
use crate::registry::peer::{Peer, PeerMessage};

verus! {

/// Reads a WireGuard key; a text that is not one gives `InvalidKey` with
/// the key error's text.
pub fn parse_key(key_b64: &str) -> (r: Result<WgKey, ErrorKind>)
    ensures
        r matches Ok(k) ==> wireguard_key_decoded(key_b64@) == Some(k.0@),
        r is Err <==> wireguard_key_decoded(key_b64@) is None,
        r is Err ==> (r->Err_0 matches ErrorKind::InvalidKey { context } && context@
            == "Invalid key format"@),
{
    match parse_wireguard_key(key_b64) {
        Ok(k) => Ok(k),
        Err(m) => Err(ErrorKind::InvalidKey { context: m }),
    }
}

/// The WireGuard settings of one peer.
#[derive(Clone, Debug)]
pub struct PeerPlan {
    pub public_key: WgKey,
    pub endpoint: SocketAddress,
    pub allowed_ips: Vec<IpNet>,
    pub persistent_keepalive: Option<u16>,
}

/// The endpoint text of a peer: its public address, a colon and its port.
pub open spec fn peer_endpoint_text(peer: Peer) -> Seq<char> {
    peer.public_ip@ + ":"@ + peer.port@
}

/// The networks routed to a peer: its mesh address alone, then the
/// networks it announced.
pub open spec fn peer_allowed_ips(peer: Peer) -> Seq<IpNet> {
    seq![IpNet { addr: crate::ip::IpAddress::V4(peer.mesh_ip), prefix: 32 }] + peer.allowed_ips@
}

/// Law: a peer is routed its mesh address alone (a /32 network) and then
/// every network it announced, each once and in the order announced.
pub proof fn law_routed_networks(peer: Peer)
    ensures
        peer_allowed_ips(peer).len() == 1 + peer.allowed_ips@.len(),
        peer_allowed_ips(peer)[0] == (IpNet { addr: crate::ip::IpAddress::V4(peer.mesh_ip), prefix: 32 }),
        forall|i: int|
            0 <= i < peer.allowed_ips@.len() ==> peer_allowed_ips(peer)[i + 1]
                == #[trigger] peer.allowed_ips@[i],
{
}

/// The settings for `peer`: none for this client itself (same public key);
/// otherwise its key, its endpoint, its mesh address and announced
/// networks, and the keepalive.  A key that is not a WireGuard key, or an
/// endpoint text that is not a socket address, is an error.
pub fn plan_peer(peer: &Peer, local_public_key: &str, keepalive: u16) -> (r: Result<Option<PeerPlan>, ErrorKind>)
    ensures
        peer.public_key@ == local_public_key@ ==> r matches Ok(None),
        peer.public_key@ != local_public_key@ && wireguard_key_decoded(peer.public_key@) is None
            ==> (r matches Err(ErrorKind::InvalidKey { context }) && context@
            == "Invalid key format"@),
        peer.public_key@ != local_public_key@ && wireguard_key_decoded(peer.public_key@) is Some
            && socket_address_from_text(peer_endpoint_text(*peer)) is None ==> (r matches Err(
            ErrorKind::Netlink { context },
        ) && context@ == "invalid endpoint: "@ + peer_endpoint_text(*peer)),
        peer.public_key@ != local_public_key@ && wireguard_key_decoded(peer.public_key@) is Some
            && socket_address_from_text(peer_endpoint_text(*peer)) is Some ==> (r matches Ok(
            Some(plan),
        ) && wireguard_key_decoded(peer.public_key@) == Some(plan.public_key.0@)
            && socket_address_from_text(peer_endpoint_text(*peer)) == Some(plan.endpoint)
            && plan.allowed_ips@ == peer_allowed_ips(*peer) && plan.persistent_keepalive == Some(
            keepalive,
        )),
        r matches Ok(Some(plan)) ==> plan.allowed_ips@.len() == 1 + peer.allowed_ips@.len(),
        r matches Ok(Some(plan)) ==> plan.allowed_ips@[0] == (IpNet {
            addr: crate::ip::IpAddress::V4(peer.mesh_ip),
            prefix: 32,
        }),
        r matches Ok(Some(plan)) ==> forall|i: int|
            0 <= i < peer.allowed_ips@.len() ==> plan.allowed_ips@[i + 1]
                == #[trigger] peer.allowed_ips@[i],
{
    let local = String::from_str(local_public_key);
    if peer.public_key.eq(&local) {
        return Ok(None);
    }
    let key = match parse_key(peer.public_key.as_str()) {
        Ok(k) => k,
        Err(e) => return Err(e),
    };
    let mut text = peer.public_ip.clone();
    text.append(":");
    text.append(peer.port.as_str());
    let endpoint = match parse_socket_address(text.as_str()) {
        Some(a) => a,
        None => {
            let mut context = String::from_str("invalid endpoint: ");
            context.append(text.as_str());
            return Err(ErrorKind::Netlink { context });
        },
    };
    let mut allowed_ips: Vec<IpNet> = Vec::new();
    allowed_ips.push(IpNet::host_v4(peer.mesh_ip));
    let mut i: usize = 0;
    while i < peer.allowed_ips.len()
        invariant
            i <= peer.allowed_ips@.len(),
            allowed_ips@ == peer_allowed_ips(*peer).take(i + 1),
        decreases peer.allowed_ips@.len() - i,
    {
        allowed_ips.push(peer.allowed_ips[i]);
        i = i + 1;
        assert(allowed_ips@ =~= peer_allowed_ips(*peer).take(i + 1));
    }
    assert(allowed_ips@ =~= peer_allowed_ips(*peer));
    proof {
        law_routed_networks(*peer);
    }
    Ok(Some(PeerPlan { public_key: key, endpoint, allowed_ips, persistent_keepalive: Some(keepalive) }))
}

/// What arrives on the registry's WebSocket.
pub enum ClientEvent {
    /// A message from the registry.
    Message(PeerMessage),
    /// A ping.
    Ping,
    /// A pong.
    Pong,
    /// The registry closed the connection.
    Close,
    /// Any other frame.
    Other,
}

/// What the client does about it.
pub enum ClientAction {
    /// Configure every listed peer, skipping those that fail.
    ConfigureAll(Vec<Peer>),
    /// Configure this peer; failing to do so ends the session.
    Configure(Peer),
    /// Wait for the next message.
    Continue,
    /// Stop listening.
    Stop,
}

/// The client's answer to what arrives: the peer list configures every
/// peer, an update configures that peer, a close stops, anything else is
/// ignored.
pub fn client_step(event: ClientEvent) -> (a: ClientAction)
    ensures
        match event {
            ClientEvent::Message(PeerMessage::HydratePeers { peers }) => a matches ClientAction::ConfigureAll(ps) && ps@ == peers@,
            ClientEvent::Message(PeerMessage::PeerUpdate { peer }) => a matches ClientAction::Configure(p) && p@ == peer@,
            ClientEvent::Close => a is Stop,
            _ => a is Continue,
        },
{
    match event {
        ClientEvent::Message(PeerMessage::HydratePeers { peers }) => ClientAction::ConfigureAll(peers),
        ClientEvent::Message(PeerMessage::PeerUpdate { peer }) => ClientAction::Configure(peer),
        ClientEvent::Close => ClientAction::Stop,
        _ => ClientAction::Continue,
    }
}

/// What a failure to configure a peer does.
#[derive(Clone, Copy, Debug, PartialEq, Eq, Structural)]
pub enum ConfigureFailure {
    /// The peer is skipped and the others are still configured.
    Skip,
    /// The session ends with the error.
    EndSession,
}

/// A peer of the initial list that cannot be configured is skipped; a
/// registered peer that cannot be configured ends the session.
pub fn configure_failure(action: &ClientAction) -> (r: ConfigureFailure)
    ensures
        r == ConfigureFailure::Skip <==> action is ConfigureAll,
{
    match action {
        ClientAction::ConfigureAll(_) => ConfigureFailure::Skip,
        _ => ConfigureFailure::EndSession,
    }
}

} // verus!
