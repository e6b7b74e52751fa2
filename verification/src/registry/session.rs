//! A client's WebSocket session with the registry: it first receives the
//! list of peers, then every registration, until either side stops.
use vstd::prelude::*;
use crate::registry::peer::{Peer, PeerMessage, PeerUpdate};

verus! {

/// How a session opens, given the peers the store listed (`None` when the
/// store could not list them).
pub enum SessionOpening {
    /// Send the peers, in a `HydratePeers` message.
    Hydrate(PeerMessage),
    /// Close the session.
    Close,
}

/// How a session opens: the client first gets the whole list of peers;
/// when the store cannot list them, the session is closed.
pub open spec fn opening_for(peers: Option<Vec<Peer>>) -> SessionOpening {
    match peers {
        Some(ps) => SessionOpening::Hydrate(PeerMessage::HydratePeers { peers: ps }),
        None => SessionOpening::Close,
    }
}

/// Opens a session, as `opening_for` says.
pub fn session_opening(peers: Option<Vec<Peer>>) -> (r: SessionOpening)
    ensures
        r == opening_for(peers),
        peers is None <==> r is Close,
        peers matches Some(ps) ==> r matches SessionOpening::Hydrate(PeerMessage::HydratePeers {
            peers: qs,
        }) && qs@ == ps@,
{
    match peers {
        Some(ps) => SessionOpening::Hydrate(PeerMessage::HydratePeers { peers: ps }),
        None => SessionOpening::Close,
    }
}

/// What happens during a session.
pub enum SessionEvent {
    /// The client sent a ping with this payload.
    Ping(Vec<u8>),
    /// The client sent a pong.
    Pong,
    /// The client sent a text message.
    Text,
    /// The client sent a binary message.
    Binary,
    /// The client closed the session.
    Close,
    /// Reading from the client failed.
    ReadError,
    /// The client's stream ended.
    Ended,
    /// A device registered.
    Update(PeerUpdate),
    /// This session missed that many registrations.
    Lagged(u64),
    /// No more registrations will come.
    UpdatesClosed,
    /// Sending to the client failed.
    SendFailed,
}

/// What the session does next.
pub enum SessionAction {
    /// Answer a ping with a pong carrying its payload.
    SendPong(Vec<u8>),
    /// Send the registered peer to the client.
    SendPeer(Peer),
    /// Wait for the next event.
    Wait,
    /// Close the session.
    Close,
}

/// The session's answer to an event: pings are answered, registrations
/// are passed on, other messages and missed registrations are skipped,
/// and the session closes when the client leaves, reading or sending
/// fails, or registrations stop.
pub open spec fn reply_to(event: SessionEvent) -> SessionAction {
    match event {
        SessionEvent::Ping(d) => SessionAction::SendPong(d),
        SessionEvent::Update(u) => SessionAction::SendPeer(u.peer),
        SessionEvent::Pong | SessionEvent::Text | SessionEvent::Binary
        | SessionEvent::Lagged(_) => SessionAction::Wait,
        SessionEvent::Close | SessionEvent::ReadError | SessionEvent::Ended
        | SessionEvent::UpdatesClosed | SessionEvent::SendFailed => SessionAction::Close,
    }
}

/// Answers an event, as `reply_to` says.
pub fn session_step(event: SessionEvent) -> (a: SessionAction)
    ensures
        a == reply_to(event),
        match event {
            SessionEvent::Ping(d) => a matches SessionAction::SendPong(e) && e@ == d@,
            SessionEvent::Update(u) => a matches SessionAction::SendPeer(p) && p@ == u.peer@,
            SessionEvent::Pong | SessionEvent::Text | SessionEvent::Binary
            | SessionEvent::Lagged(_) => a is Wait,
            SessionEvent::Close | SessionEvent::ReadError | SessionEvent::Ended
            | SessionEvent::UpdatesClosed | SessionEvent::SendFailed => a is Close,
        },
{
    match event {
        SessionEvent::Ping(d) => SessionAction::SendPong(d),
        SessionEvent::Update(u) => SessionAction::SendPeer(u.peer),
        SessionEvent::Pong | SessionEvent::Text | SessionEvent::Binary
        | SessionEvent::Lagged(_) => SessionAction::Wait,
        SessionEvent::Close | SessionEvent::ReadError | SessionEvent::Ended
        | SessionEvent::UpdatesClosed | SessionEvent::SendFailed => SessionAction::Close,
    }
}

/// Law: a session that opens on the listed peers `ps` and then sees the
/// registrations `updates`, with the client staying connected, first sends
/// the whole list and then each registered peer, one per registration, in
/// the order they came, without ever closing.
pub proof fn law_session_sends_list_then_each_registration(ps: Vec<Peer>, updates: Seq<PeerUpdate>)
    ensures
        opening_for(Some(ps)) == SessionOpening::Hydrate(PeerMessage::HydratePeers { peers: ps }),
        updates.map_values(|u: PeerUpdate| reply_to(SessionEvent::Update(u))) == updates.map_values(
            |u: PeerUpdate| SessionAction::SendPeer(u.peer),
        ),
        forall|i: int|
            0 <= i < updates.len() ==> !(#[trigger] reply_to(SessionEvent::Update(updates[i])) is Close),
{
    assert(updates.map_values(|u: PeerUpdate| reply_to(SessionEvent::Update(u))) =~= updates.map_values(
        |u: PeerUpdate| SessionAction::SendPeer(u.peer),
    ));
}

} // verus!
