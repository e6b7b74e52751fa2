use wg_mesh::registry::peer::RegisterRequest;
use wg_mesh::registry::storage::{peer_from_record, registration_fields, PeerRecord};
use wg_mesh::ip::{IpAddress, IpNet, Ipv4, Ipv6};
use wg_mesh::key::{parse_wireguard_key, PublicKeyError, WireguardPublicKey};

const KEY: &str = "SGb+ojrRNDuMePufwtIYhXzA//k6wF3R21tEBgKlzlM=";

#[test]
fn public_key_accepts_32_byte_base64() {
    let k = WireguardPublicKey::parse(KEY.to_string()).unwrap();
    assert_eq!(k.as_str(), KEY);
    assert_eq!(k.clone().as_str(), KEY);
}

#[test]
fn public_key_refuses_bad_base64() {
    assert_eq!(
        WireguardPublicKey::parse("not base64!".to_string()).unwrap_err(),
        PublicKeyError::InvalidBase64
    );
}

#[test]
fn public_key_refuses_wrong_length() {
    assert_eq!(
        WireguardPublicKey::parse("AAAA".to_string()).unwrap_err(),
        PublicKeyError::InvalidLength { len: 3 }
    );
}

#[test]
fn wireguard_key_reads_bytes() {
    let k = parse_wireguard_key(KEY).unwrap();
    assert_eq!(k.0, wireguard_control::Key::from_base64(KEY).unwrap().0);
    assert_eq!(parse_wireguard_key("AAAA").unwrap_err(), "Invalid key format");
    assert_eq!(parse_wireguard_key("%%%").unwrap_err(), "Invalid key format");
}

#[test]
fn allowed_ips_json_round_trip_through_the_store() {
    let nets = vec![
        IpNet { addr: IpAddress::V4(Ipv4(10, 0, 0, 5)), prefix: 24 },
        IpNet { addr: IpAddress::V6(Ipv6(0x2001_0db8 << 96)), prefix: 32 },
    ];
    let req = RegisterRequest {
        public_ip: IpAddress::V4(Ipv4(1, 2, 3, 4)),
        public_key: WireguardPublicKey::parse(KEY.to_string()).unwrap(),
        port: "1".to_string(),
        allowed_ips: nets.clone(),
    };
    let fields = registration_fields(&req, Ipv4(10, 100, 0, 1)).unwrap();
    assert_eq!(fields[1].1, r#"["10.0.0.5/24","2001:db8::/32"]"#);
    let peer = peer_from_record(&KEY.to_string(), &record(Some(fields[1].1.clone()))).unwrap();
    assert_eq!(peer.allowed_ips, nets);
}

fn record(allowed_ips: Option<String>) -> PeerRecord {
    PeerRecord {
        public_ip: Some("1.2.3.4".to_string()),
        port: Some("1".to_string()),
        mesh_ip: Some("10.100.0.1".to_string()),
        allowed_ips,
    }
}

fn read_allowed(json: &str) -> Vec<IpNet> {
    peer_from_record(&"k".to_string(), &record(Some(json.to_string()))).unwrap().allowed_ips
}

#[test]
fn allowed_ips_json_refuses_garbage() {
    assert_eq!(read_allowed("not json"), vec![]);
    assert_eq!(read_allowed(r#"["10.0.0.0/33"]"#), vec![]);
    assert_eq!(read_allowed(r#"{"a":1}"#), vec![]);
    assert_eq!(
        read_allowed(r#"["192.168.1.0/255.255.255.0"]"#),
        vec![IpNet { addr: IpAddress::V4(Ipv4(192, 168, 1, 0)), prefix: 24 }]
    );
    assert_eq!(
        read_allowed(r#"["10.1.2.3"]"#),
        vec![IpNet { addr: IpAddress::V4(Ipv4(10, 1, 2, 3)), prefix: 32 }]
    );
    assert_eq!(read_allowed("[]"), vec![]);
}
