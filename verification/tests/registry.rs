use wg_mesh::registry::storage::{choose_mesh_ip, MeshIpChoice};
use wg_mesh::ip::{IpAddress, IpNet, Ipv4, Ipv6};
use wg_mesh::key::WireguardPublicKey;
use wg_mesh::registry::allocation::{allocate_mesh_ip, mesh_address_of, MESH_POOL_END, MESH_POOL_START};
use wg_mesh::registry::endpoints::{check_deregistration, peer_update_for};
use wg_mesh::registry::error::ErrorKind;
use wg_mesh::registry::peer::{DeregisterRequest, Peer, PeerMessage, PeerUpdate, RegisterRequest};
use wg_mesh::registry::session::{session_opening, session_step, SessionAction, SessionEvent, SessionOpening};
use wg_mesh::registry::storage::{
    get_storage_from_env, peer_from_record, peer_hash_key, peers_from_records, peers_set_name,
    registration_fields, PeerRecord, Storage,
};

const KEY: &str = "SGb+ojrRNDuMePufwtIYhXzA//k6wF3R21tEBgKlzlM=";

fn some(s: &str) -> Option<String> {
    Some(s.to_string())
}

fn request() -> RegisterRequest {
    RegisterRequest {
        public_ip: IpAddress::V4(Ipv4(203, 0, 113, 7)),
        public_key: WireguardPublicKey::parse(KEY.to_string()).unwrap(),
        port: "51820".to_string(),
        allowed_ips: vec![IpNet { addr: IpAddress::V4(Ipv4(192, 168, 1, 0)), prefix: 24 }],
    }
}

#[test]
fn allocation_starts_at_first_host() {
    assert_eq!(allocate_mesh_ip(&vec![]).unwrap(), Ipv4(10, 100, 0, 1));
    assert_eq!(mesh_address_of(MESH_POOL_START), Ipv4(10, 100, 0, 1));
    assert_eq!(mesh_address_of(MESH_POOL_END), Ipv4(10, 100, 0, 254));
}

#[test]
fn allocation_takes_lowest_free_host() {
    let taken = vec![some("10.100.0.1"), None, some("10.100.0.2"), some("10.100.0.4")];
    assert_eq!(allocate_mesh_ip(&taken).unwrap(), Ipv4(10, 100, 0, 3));
}

#[test]
fn allocation_ignores_foreign_and_unreadable_texts() {
    let taken = vec![
        some("10.100.1.1"),
        some("garbage"),
        some("10.100.0.01"),
        some("10.100.0.0"),
        some("10.100.0.255"),
        some(" 10.100.0.1"),
    ];
    assert_eq!(allocate_mesh_ip(&taken).unwrap(), Ipv4(10, 100, 0, 1));
}

#[test]
fn allocation_never_hands_out_a_taken_address() {
    let mut taken: Vec<Option<String>> = Vec::new();
    for h in (1..=200u8).rev() {
        if h % 7 != 0 {
            taken.push(Some(format!("10.100.0.{h}")));
        }
    }
    let ip = allocate_mesh_ip(&taken).unwrap();
    assert_eq!(ip, Ipv4(10, 100, 0, 7));
    assert!(!taken.contains(&Some("10.100.0.7".to_string())));
}

#[test]
fn allocation_reports_exhausted_pool() {
    let taken: Vec<Option<String>> = (1..=254u8).map(|h| Some(format!("10.100.0.{h}"))).collect();
    match allocate_mesh_ip(&taken) {
        Err(ErrorKind::IpPoolExhausted { pool }) => assert_eq!(pool, "10.100.0.0/24"),
        other => panic!("unexpected {other:?}"),
    }
    let mut almost = taken.clone();
    almost.remove(253);
    assert_eq!(allocate_mesh_ip(&almost).unwrap(), Ipv4(10, 100, 0, 254));
}

#[test]
fn store_key_names() {
    assert_eq!(peer_hash_key("abc"), "peer:abc");
    assert_eq!(peer_hash_key(KEY), format!("peer:{KEY}"));
    assert_eq!(peers_set_name(), "peers");
}

#[test]
fn registration_writes_four_fields() {
    let fields = registration_fields(&request(), Ipv4(10, 100, 0, 9)).unwrap();
    let expected: Vec<(String, String)> = vec![
        ("public_ip".into(), "203.0.113.7".into()),
        ("allowed_ips".into(), r#"["192.168.1.0/24"]"#.into()),
        ("port".into(), "51820".into()),
        ("mesh_ip".into(), "10.100.0.9".into()),
    ];
    assert_eq!(fields, expected);
}

#[test]
fn registration_of_ipv6_device() {
    let mut req = request();
    req.public_ip = IpAddress::V6(Ipv6(1));
    req.allowed_ips = vec![];
    let fields = registration_fields(&req, Ipv4(10, 100, 0, 2)).unwrap();
    assert_eq!(fields[0].1, "::1");
    assert_eq!(fields[1].1, "[]");
}

#[test]
fn law_registration_reads_back_as_peer() {
    let req = request();
    let fields = registration_fields(&req, Ipv4(10, 100, 0, 9)).unwrap();
    let get = |name: &str| fields.iter().rev().find(|(k, _)| k == name).map(|(_, v)| v.clone());
    let rec = PeerRecord {
        public_ip: get("public_ip"),
        port: get("port"),
        mesh_ip: get("mesh_ip"),
        allowed_ips: get("allowed_ips"),
    };
    let peer = peer_from_record(&KEY.to_string(), &rec).unwrap();
    assert_eq!(peer.public_key, KEY);
    assert_eq!(peer.public_ip, "203.0.113.7");
    assert_eq!(peer.port, "51820");
    assert_eq!(peer.mesh_ip, Ipv4(10, 100, 0, 9));
    assert_eq!(peer.allowed_ips, req.allowed_ips);
    let update = peer_update_for(&req, Ipv4(10, 100, 0, 9));
    assert_eq!(update.peer.public_key, peer.public_key);
    assert_eq!(update.peer.public_ip, peer.public_ip);
    assert_eq!(update.peer.port, peer.port);
    assert_eq!(update.peer.mesh_ip, peer.mesh_ip);
    assert_eq!(update.peer.allowed_ips, peer.allowed_ips);
}

#[test]
fn records_missing_fields_describe_no_peer() {
    let full = PeerRecord {
        public_ip: some("1.2.3.4"),
        port: some("5"),
        mesh_ip: some("10.100.0.3"),
        allowed_ips: None,
    };
    let k = "k".to_string();
    assert_eq!(peer_from_record(&k, &full).unwrap().allowed_ips, vec![]);
    assert!(peer_from_record(&k, &PeerRecord { mesh_ip: None, ..full.clone() }).is_none());
    assert!(peer_from_record(&k, &PeerRecord { mesh_ip: some("10.100.0"), ..full.clone() }).is_none());
    assert!(peer_from_record(&k, &PeerRecord { public_ip: None, ..full.clone() }).is_none());
    assert!(peer_from_record(&k, &PeerRecord { port: None, ..full.clone() }).is_none());
    let bad_json = PeerRecord { allowed_ips: some("[oops"), ..full.clone() };
    assert_eq!(peer_from_record(&k, &bad_json).unwrap().allowed_ips, vec![]);
}

#[test]
fn records_pair_with_keys_in_order() {
    let good = |m: &str| PeerRecord {
        public_ip: some("1.1.1.1"),
        port: some("1"),
        mesh_ip: some(m),
        allowed_ips: some(r#"["10.0.0.0/8"]"#),
    };
    let empty = PeerRecord { public_ip: None, port: None, mesh_ip: None, allowed_ips: None };
    let keys = vec!["a".to_string(), "b".to_string(), "c".to_string(), "d".to_string()];
    let records = vec![good("10.100.0.1"), empty, good("10.100.0.3")];
    let peers = peers_from_records(&keys, &records);
    assert_eq!(peers.len(), 2);
    assert_eq!(peers[0].public_key, "a");
    assert_eq!(peers[1].public_key, "c");
    assert_eq!(peers[1].mesh_ip, Ipv4(10, 100, 0, 3));
    assert_eq!(peers[0].allowed_ips, vec![IpNet { addr: IpAddress::V4(Ipv4(10, 0, 0, 0)), prefix: 8 }]);
    assert!(peers_from_records(&vec![], &records).is_empty());
}

#[test]
fn deregistration_needs_a_key() {
    assert!(check_deregistration(&DeregisterRequest { public_key: KEY.to_string() }).is_ok());
    match check_deregistration(&DeregisterRequest { public_key: "nope".to_string() }) {
        Err(ErrorKind::InvalidKey { public_key }) => assert_eq!(public_key, "nope"),
        other => panic!("unexpected {other:?}"),
    }
}

#[test]
fn registry_store_opens() {
    match get_storage_from_env() {
        Ok(Storage::Valkey(_)) => {}
        Err(e) => panic!("unexpected {e:?}"),
    }
}

fn peer(key: &str) -> Peer {
    Peer {
        public_key: key.to_string(),
        public_ip: "1.2.3.4".to_string(),
        port: "51820".to_string(),
        mesh_ip: Ipv4(10, 100, 0, 1),
        allowed_ips: vec![],
    }
}

#[test]
fn session_opens_with_peer_list() {
    match session_opening(Some(vec![peer("a"), peer("b")])) {
        SessionOpening::Hydrate(PeerMessage::HydratePeers { peers }) => assert_eq!(peers.len(), 2),
        _ => panic!("expected hydrate"),
    }
    assert!(matches!(session_opening(None), SessionOpening::Close));
}

#[test]
fn session_answers_events() {
    assert!(matches!(session_step(SessionEvent::Ping(vec![1, 2])), SessionAction::SendPong(d) if d == vec![1, 2]));
    match session_step(SessionEvent::Update(PeerUpdate { peer: peer("z") })) {
        SessionAction::SendPeer(p) => assert_eq!(p.public_key, "z"),
        _ => panic!("expected peer"),
    }
    for e in [SessionEvent::Pong, SessionEvent::Text, SessionEvent::Binary, SessionEvent::Lagged(3)] {
        assert!(matches!(session_step(e), SessionAction::Wait));
    }
    for e in [
        SessionEvent::Close,
        SessionEvent::ReadError,
        SessionEvent::Ended,
        SessionEvent::UpdatesClosed,
        SessionEvent::SendFailed,
    ] {
        assert!(matches!(session_step(e), SessionAction::Close));
    }
}


#[test]
fn law_reregistration_keeps_mesh_ip_on_values() {
    for host in [1u8, 9, 10, 99, 100, 254] {
        let ip = Ipv4(10, 100, 0, host);
        let fields = registration_fields(&request(), ip).unwrap();
        let written = &fields.iter().find(|(k, _)| k == "mesh_ip").unwrap().1;
        assert_eq!(wg_mesh::ip::parse_ipv4(written), Some(ip));
    }
}

#[test]
fn stored_mesh_address_is_reused() {
    assert_eq!(choose_mesh_ip(&some("10.100.0.42")), MeshIpChoice::Reuse(Ipv4(10, 100, 0, 42)));
    assert_eq!(choose_mesh_ip(&None), MeshIpChoice::Allocate);
}

#[test]
fn law_registering_twice_writes_same_fields() {
    let first = registration_fields(&request(), Ipv4(10, 100, 0, 5)).unwrap();
    let stored = first.iter().find(|(k, _)| k == "mesh_ip").map(|(_, v)| v.clone());
    let again = match choose_mesh_ip(&stored) {
        MeshIpChoice::Reuse(ip) => ip,
        MeshIpChoice::Allocate => panic!("expected reuse"),
    };
    assert_eq!(registration_fields(&request(), again).unwrap(), first);
}

#[test]
fn law_new_devices_get_distinct_addresses() {
    let mut assigned: Vec<Option<String>> = Vec::new();
    let mut seen = std::collections::HashSet::new();
    for _ in 0..20 {
        let ip = allocate_mesh_ip(&assigned).unwrap();
        assert!(seen.insert(ip));
        assigned.push(Some(wg_mesh::ip::ipv4_string(ip)));
    }
}

#[test]
fn registration_with_no_networks_succeeds() {
    let mut req = request();
    req.allowed_ips = vec![];
    assert!(registration_fields(&req, Ipv4(10, 100, 0, 1)).is_ok());
}

#[test]
fn law_session_list_then_updates_on_values() {
    let updates = vec![PeerUpdate { peer: peer("a") }, PeerUpdate { peer: peer("b") }];
    assert!(matches!(session_opening(Some(vec![peer("x")])), SessionOpening::Hydrate(_)));
    let sent: Vec<String> = updates
        .into_iter()
        .map(|u| match session_step(SessionEvent::Update(u)) {
            SessionAction::SendPeer(p) => p.public_key,
            _ => panic!("expected a peer"),
        })
        .collect();
    assert_eq!(sent, vec!["a".to_string(), "b".to_string()]);
}
