use wg_mesh::client::peers::{configure_failure, ConfigureFailure};
use wg_mesh::client::config::{
    default_keepalive, default_listen_port, Config, InterfaceConfig, ServerConfig,
    DEFAULT_KEEPALIVE, INTERFACE_NAME,
};
use wg_mesh::client::discovery::{
    discovery_start, discovery_step, http_ip_service, parse_ip_response, stun_server,
    DiscoveryStep, Probe, ProbeResult, PublicEndpoint, HTTP_SERVICE_COUNT, STUN_SERVER_COUNT,
};
use wg_mesh::client::error::ErrorKind;
use wg_mesh::client::netlink::{net_string, netlink_outcome, NetlinkOutcome, NetlinkReply};
use wg_mesh::client::peers::{client_step, parse_key, plan_peer, ClientAction, ClientEvent};
use wg_mesh::client::registration::{
    check_registration_status, deregister_url, register_url, registration_request,
};
use wg_mesh::client::state::Data;
use wg_mesh::ip::{IpAddress, IpNet, Ipv4, Ipv6, SocketAddress};
use wg_mesh::registry::peer::{Peer, PeerMessage};

const KEY: &str = "SGb+ojrRNDuMePufwtIYhXzA//k6wF3R21tEBgKlzlM=";
const OTHER: &str = "HIgo9xNzJMWLKASShiTqIybxZ0U3wGLiUeJ1PKf8ykw=";

fn config(allowed: Option<Vec<IpNet>>) -> Config {
    Config {
        interface: InterfaceConfig {
            private_key: OTHER.to_string(),
            public_key: KEY.to_string(),
            listen_port: default_listen_port(),
            persistent_keepalive: default_keepalive(),
            allowed_ips: allowed,
        },
        server: ServerConfig { ws_url: "ws://r:8080/ws/peers".into(), url: "http://r:8080".into() },
    }
}

fn peer(key: &str, ip: &str, port: &str) -> Peer {
    Peer {
        public_key: key.to_string(),
        public_ip: ip.to_string(),
        port: port.to_string(),
        mesh_ip: Ipv4(10, 100, 0, 2),
        allowed_ips: vec![IpNet { addr: IpAddress::V4(Ipv4(192, 168, 0, 0)), prefix: 16 }],
    }
}

#[test]
fn configuration_defaults() {
    assert_eq!(default_listen_port(), 51820);
    assert_eq!(default_keepalive(), 25);
    assert_eq!(DEFAULT_KEEPALIVE, 25);
    assert_eq!(INTERFACE_NAME, "mesh0");
}

#[test]
fn discovery_prefers_stun_in_order() {
    let ep = PublicEndpoint { ip: IpAddress::V4(Ipv4(203, 0, 113, 1)), port: 40000 };
    let p = discovery_start();
    assert_eq!(p, Probe::Stun(0));
    assert!(matches!(discovery_step(p, ProbeResult::Stun(None), 51820), DiscoveryStep::Ask(Probe::Stun(1))));
    assert!(matches!(discovery_step(Probe::Stun(1), ProbeResult::Stun(Some(ep)), 51820), DiscoveryStep::Found(e) if e == ep));
    assert!(matches!(discovery_step(Probe::Stun(2), ProbeResult::Stun(None), 51820), DiscoveryStep::Ask(Probe::Http(0))));
    assert!(matches!(discovery_step(Probe::Stun(0), ProbeResult::StunUnavailable, 51820), DiscoveryStep::Ask(Probe::Http(0))));
}

#[test]
fn discovery_falls_back_to_http_with_local_port() {
    let ip = IpAddress::V4(Ipv4(198, 51, 100, 2));
    assert!(matches!(
        discovery_step(Probe::Http(0), ProbeResult::Http(Some(ip)), 51820),
        DiscoveryStep::Found(PublicEndpoint { ip: i, port: 51820 }) if i == ip
    ));
    assert!(matches!(discovery_step(Probe::Http(0), ProbeResult::Http(None), 1), DiscoveryStep::Ask(Probe::Http(1))));
    assert!(matches!(discovery_step(Probe::Http(1), ProbeResult::Http(None), 1), DiscoveryStep::Failed));
}

#[test]
fn discovery_servers() {
    assert_eq!(STUN_SERVER_COUNT, 3);
    assert_eq!(HTTP_SERVICE_COUNT, 2);
    assert_eq!(stun_server(0), "stun.l.google.com:19302");
    assert_eq!(stun_server(1), "stun.cloudflare.com:3478");
    assert_eq!(stun_server(2), "stun.stunprotocol.org:3478");
    assert_eq!(http_ip_service(0), "https://icanhazip.com");
    assert_eq!(http_ip_service(1), "https://ifconfig.me/ip");
}

#[test]
fn http_bodies_are_trimmed_and_parsed() {
    assert_eq!(parse_ip_response("203.0.113.9\n").unwrap(), IpAddress::V4(Ipv4(203, 0, 113, 9)));
    assert_eq!(parse_ip_response(" ::1 ").unwrap(), IpAddress::V6(Ipv6(1)));
    match parse_ip_response("  <html>  ") {
        Err(ErrorKind::ParseIp { body }) => assert_eq!(body, "<html>"),
        other => panic!("unexpected {other:?}"),
    }
}

#[test]
fn endpoint_text() {
    let e = PublicEndpoint { ip: IpAddress::V4(Ipv4(1, 2, 3, 4)), port: 5 };
    assert_eq!(e.to_text(), "1.2.3.4:5");
    let e6 = PublicEndpoint { ip: IpAddress::V6(Ipv6(1)), port: 80 };
    assert_eq!(e6.to_text(), "::1:80");
}

#[test]
fn registry_urls() {
    assert_eq!(register_url("http://r:8080"), "http://r:8080/register");
    assert_eq!(deregister_url("http://r:8080", KEY), format!("http://r:8080/deregister?public_key={KEY}"));
}

#[test]
fn registration_request_from_config() {
    let ep = PublicEndpoint { ip: IpAddress::V4(Ipv4(203, 0, 113, 5)), port: 61000 };
    let r = registration_request(&config(None), &ep);
    assert_eq!(r.public_ip, ep.ip);
    assert_eq!(r.public_key, KEY);
    assert_eq!(r.port, "61000");
    assert!(r.allowed_ips.is_empty());
    let nets = vec![IpNet { addr: IpAddress::V4(Ipv4(10, 1, 0, 0)), prefix: 16 }];
    assert_eq!(registration_request(&config(Some(nets.clone())), &ep).allowed_ips, nets);
}

#[test]
fn registration_status_check() {
    assert!(check_registration_status(200, String::new()).is_ok());
    assert!(check_registration_status(204, String::new()).is_ok());
    assert!(check_registration_status(299, String::new()).is_ok());
    for s in [199u16, 300, 400, 500] {
        match check_registration_status(s, "why".into()) {
            Err(ErrorKind::RegistrationStatus { status, body }) => {
                assert_eq!(status, s);
                assert_eq!(body, "why");
            }
            other => panic!("unexpected {other:?}"),
        }
    }
}

#[test]
fn keys_are_parsed() {
    assert!(parse_key(KEY).is_ok());
    match parse_key("xyz") {
        Err(ErrorKind::InvalidKey { context }) => assert_eq!(context, "Invalid key format"),
        other => panic!("unexpected {other:?}"),
    }
}

#[test]
fn plan_skips_self() {
    assert!(matches!(plan_peer(&peer(KEY, "1.2.3.4", "5"), KEY, 25), Ok(None)));
}

#[test]
fn plan_configures_other_peer() {
    let plan = plan_peer(&peer(OTHER, "198.51.100.7", "51820"), KEY, 30).unwrap().unwrap();
    assert_eq!(plan.public_key.0, wireguard_control::Key::from_base64(OTHER).unwrap().0);
    assert_eq!(
        plan.endpoint,
        SocketAddress { ip: IpAddress::V4(Ipv4(198, 51, 100, 7)), port: 51820, scope_id: 0 }
    );
    assert_eq!(
        plan.allowed_ips,
        vec![
            IpNet { addr: IpAddress::V4(Ipv4(10, 100, 0, 2)), prefix: 32 },
            IpNet { addr: IpAddress::V4(Ipv4(192, 168, 0, 0)), prefix: 16 },
        ]
    );
    assert_eq!(plan.persistent_keepalive, Some(30));
}

#[test]
fn plan_refuses_bad_key_and_endpoint() {
    match plan_peer(&peer("bad", "1.2.3.4", "5"), KEY, 25) {
        Err(ErrorKind::InvalidKey { context }) => assert_eq!(context, "Invalid key format"),
        other => panic!("unexpected {other:?}"),
    }
    match plan_peer(&peer(OTHER, "::1", "80"), KEY, 25) {
        Err(ErrorKind::Netlink { context }) => assert_eq!(context, "invalid endpoint: ::1:80"),
        other => panic!("unexpected {other:?}"),
    }
    match plan_peer(&peer(OTHER, "1.2.3.4", "port"), KEY, 25) {
        Err(ErrorKind::Netlink { context }) => assert_eq!(context, "invalid endpoint: 1.2.3.4:port"),
        other => panic!("unexpected {other:?}"),
    }
}

#[test]
fn client_messages() {
    let list = PeerMessage::HydratePeers { peers: vec![peer(KEY, "1.1.1.1", "1")] };
    assert!(matches!(client_step(ClientEvent::Message(list)), ClientAction::ConfigureAll(ps) if ps.len() == 1));
    let up = PeerMessage::PeerUpdate { peer: peer(OTHER, "1.1.1.1", "1") };
    assert!(matches!(client_step(ClientEvent::Message(up)), ClientAction::Configure(p) if p.public_key == OTHER));
    assert!(matches!(client_step(ClientEvent::Close), ClientAction::Stop));
    for e in [ClientEvent::Ping, ClientEvent::Pong, ClientEvent::Other] {
        assert!(matches!(client_step(e), ClientAction::Continue));
    }
}

#[test]
fn netlink_answers() {
    assert_eq!(netlink_outcome(NetlinkReply::Done), NetlinkOutcome::Added);
    assert_eq!(netlink_outcome(NetlinkReply::NetlinkError(-libc::EEXIST)), NetlinkOutcome::AlreadyPresent);
    assert_eq!(netlink_outcome(NetlinkReply::NetlinkError(-1)), NetlinkOutcome::Failed);
    assert_eq!(netlink_outcome(NetlinkReply::OtherError), NetlinkOutcome::Failed);
    let n = IpNet { addr: IpAddress::V4(Ipv4(10, 0, 0, 0)), prefix: 8 };
    assert_eq!(net_string(n), "10.0.0.0/8");
}

#[test]
fn shared_data() {
    let d = Data::new(41u32);
    let e = d.clone();
    assert_eq!(*d + 1, 42);
    assert_eq!(*e.get(), 41);
}

#[test]
fn plan_reads_bracketed_ipv6_endpoints() {
    let plan = plan_peer(&peer(OTHER, "[::1]", "80"), KEY, 25).unwrap().unwrap();
    assert_eq!(plan.endpoint, SocketAddress { ip: IpAddress::V6(Ipv6(1)), port: 80, scope_id: 0 });
    let plan = plan_peer(&peer(OTHER, "[fe80::1%2]", "443"), KEY, 25).unwrap().unwrap();
    assert_eq!(plan.endpoint.scope_id, 2);
    assert_eq!(plan.endpoint.ip, IpAddress::V6(Ipv6((0xfe80u128 << 112) | 1)));
    assert!(plan_peer(&peer(OTHER, "1.2.3.4", "70000"), KEY, 25).is_err());
}

fn run_discovery(stun: Option<[Option<PublicEndpoint>; 3]>, http: [Option<IpAddress>; 2], port: u16) -> DiscoveryStep {
    let mut probe = discovery_start();
    loop {
        let result = match probe {
            Probe::Stun(i) => match &stun {
                None => ProbeResult::StunUnavailable,
                Some(answers) => ProbeResult::Stun(answers[i]),
            },
            Probe::Http(i) => ProbeResult::Http(http[i]),
        };
        match discovery_step(probe, result, port) {
            DiscoveryStep::Ask(next) => probe = next,
            done => return done,
        }
    }
}

#[test]
fn law_discovery_first_answer_on_values() {
    let a = PublicEndpoint { ip: IpAddress::V4(Ipv4(1, 1, 1, 1)), port: 1 };
    let b = PublicEndpoint { ip: IpAddress::V4(Ipv4(2, 2, 2, 2)), port: 2 };
    let h = IpAddress::V4(Ipv4(3, 3, 3, 3));
    assert!(matches!(run_discovery(Some([None, Some(a), Some(b)]), [Some(h), None], 9), DiscoveryStep::Found(e) if e == a));
    assert!(matches!(run_discovery(Some([None, None, None]), [None, Some(h)], 9), DiscoveryStep::Found(e) if e == PublicEndpoint { ip: h, port: 9 }));
    assert!(matches!(run_discovery(None, [Some(h), None], 7), DiscoveryStep::Found(e) if e.port == 7));
    assert!(matches!(run_discovery(Some([None, None, None]), [None, None], 9), DiscoveryStep::Failed));
}

#[test]
fn configure_failures_skip_only_listed_peers() {
    assert_eq!(configure_failure(&ClientAction::ConfigureAll(vec![])), ConfigureFailure::Skip);
    assert_eq!(configure_failure(&ClientAction::Configure(peer(KEY, "1.1.1.1", "1"))), ConfigureFailure::EndSession);
    assert_eq!(configure_failure(&ClientAction::Continue), ConfigureFailure::EndSession);
}
