//! The JSON form of a list of networks, as `serde_json` writes and reads a
//! `Vec<ipnetwork::IpNetwork>`: an array of CIDR strings.
use vstd::prelude::*;
use crate::ip::{all_valid, IpAddress, IpNet, Ipv4, Ipv6};

verus! {

/// Name for the JSON text that `serde_json::to_string` writes for the
/// networks `nets` as `ipnetwork::IpNetwork` values.
pub uninterp spec fn allowed_ips_json(nets: Seq<IpNet>) -> Seq<char>;

/// Name for the networks that `serde_json::from_str` reads as a
/// `Vec<ipnetwork::IpNetwork>` from `s`; `None` when it refuses `s`.
pub uninterp spec fn allowed_ips_from_json(s: Seq<char>) -> Option<Seq<IpNet>>;

/// Calls `serde_json::to_string` on the networks as `ipnetwork::IpNetwork`
/// values.  It succeeds: `serde_json` writes into a `Vec` and `ipnetwork`
/// writes each network with its `Display`, neither of which fails.  The
/// text is `allowed_ips_json(nets)`, and it reads back as the same
/// networks: `ipnetwork` writes each network as the string `addr/prefix`
/// and reads that string back with `from_str`.
#[verifier::external_body]
pub(crate) fn allowed_ips_to_json(nets: &Vec<IpNet>) -> (r: Result<String, serde_json::Error>)
    requires
        all_valid(nets@),
    ensures
        r is Ok,
        r matches Ok(s) ==> s@ == allowed_ips_json(nets@) && allowed_ips_from_json(s@) == Some(
            nets@,
        ),
{
    let v: Vec<ipnetwork::IpNetwork> = nets.iter().map(|n| {
        let ip = match n.addr {
            IpAddress::V4(a) => core::net::IpAddr::from([a.0, a.1, a.2, a.3]),
            IpAddress::V6(a) => core::net::IpAddr::from(core::net::Ipv6Addr::from(a.0)),
        };
        ipnetwork::IpNetwork::new(ip, n.prefix).unwrap()
    }).collect();
    serde_json::to_string(&v)
}

/// Calls `serde_json::from_str` for a `Vec<ipnetwork::IpNetwork>`; the
/// networks are `allowed_ips_from_json(s)`, each with a prefix that fits
/// its address family (`ipnetwork` refuses any other).
#[verifier::external_body]
pub(crate) fn allowed_ips_parse_json(s: &str) -> (r: Option<Vec<IpNet>>)
    ensures
        r matches Some(v) ==> allowed_ips_from_json(s@) == Some(v@) && all_valid(v@),
        r is None <==> allowed_ips_from_json(s@) is None,
{
    let v: Vec<ipnetwork::IpNetwork> = serde_json::from_str(s).ok()?;
    Some(v.iter().map(|n| {
        let addr = match n.ip() {
            core::net::IpAddr::V4(a) => IpAddress::V4(Ipv4(a.octets()[0], a.octets()[1], a.octets()[2], a.octets()[3])),
            core::net::IpAddr::V6(a) => IpAddress::V6(Ipv6(u128::from(a))),
        };
        IpNet { addr, prefix: n.prefix() }
    }).collect())
}

} // verus!
