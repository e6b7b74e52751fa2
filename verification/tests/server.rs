use wg_mesh::ip::{IpAddress, IpNet, Ipv4};
use wg_mesh::server::endpoints::{check_register_key, RegisterResponse};
use wg_mesh::server::error::{error_response, ErrorKind};
use wg_mesh::server::storage::{
    get_storage_from_env, mesh_ip_from_offset, registration_fields, subnet_key, RegisterRequest,
    Storage, MAX_HOSTS,
};

fn request(key: &str) -> RegisterRequest {
    RegisterRequest {
        public_key: key.to_string(),
        public_ip: "198.51.100.4".to_string(),
        public_port: 51820,
        allowed_ips: vec![IpNet { addr: IpAddress::V4(Ipv4(172, 16, 0, 0)), prefix: 12 }],
    }
}

#[test]
fn offsets_map_to_hosts() {
    assert_eq!(mesh_ip_from_offset(0).unwrap(), Ipv4(10, 100, 0, 1));
    assert_eq!(mesh_ip_from_offset(253).unwrap(), Ipv4(10, 100, 0, 254));
    assert_eq!(mesh_ip_from_offset(MAX_HOSTS as i64 - 1).unwrap(), Ipv4(10, 100, 0, 254));
    assert_eq!(mesh_ip_from_offset(255).unwrap(), Ipv4(10, 100, 0, 0));
    match mesh_ip_from_offset(-1) {
        Err(ErrorKind::ExhaustedSubnet { key }) => assert_eq!(key, "allocation:10.100.0.0/24"),
        other => panic!("unexpected {other:?}"),
    }
    assert_eq!(subnet_key(), "allocation:10.100.0.0/24");
}

#[test]
fn server_registration_fields() {
    let fields = registration_fields(&request("k"), &"10.100.0.5".to_string()).unwrap();
    let expected: Vec<(String, String)> = vec![
        ("public_key".into(), "k".into()),
        ("public_ip".into(), "198.51.100.4".into()),
        ("port".into(), "51820".into()),
        ("allowed_ips".into(), r#"["172.16.0.0/12"]"#.into()),
        ("mesh_ip".into(), "10.100.0.5".into()),
    ];
    assert_eq!(fields, expected);
}

#[test]
fn register_key_is_checked() {
    assert!(check_register_key(&request("SGb+ojrRNDuMePufwtIYhXzA//k6wF3R21tEBgKlzlM=")).is_ok());
    assert!(matches!(check_register_key(&request("short")), Err(ErrorKind::InvalidKey)));
    let r = RegisterResponse { mesh_ip: "10.100.0.1".to_string() };
    assert_eq!(r.mesh_ip, "10.100.0.1");
}

#[test]
fn error_answers() {
    let r = error_response(&ErrorKind::InvalidKey);
    assert_eq!(r.status, 200);
    assert_eq!(r.error.as_deref(), Some("invalid public key"));
    let r = error_response(&ErrorKind::ExhaustedSubnet { key: "x".into() });
    assert_eq!(r.status, 500);
    assert_eq!(r.error, None);
    let io = std::io::Error::other("boom");
    assert_eq!(error_response(&ErrorKind::Io(io)).status, 500);
}

#[test]
fn server_store_opens() {
    assert!(matches!(get_storage_from_env(), Ok(Storage::Valkey(_))));
}

#[test]
fn server_registration_with_no_networks_succeeds() {
    let mut req = request("k");
    req.allowed_ips = vec![];
    let fields = registration_fields(&req, &"10.100.0.1".to_string()).unwrap();
    assert_eq!(fields[3].1, "[]");
}
