//! Finding the client's public endpoint: STUN servers first, in order, and
//! when none answers, HTTP services that echo the caller's address, with
//! the local port.
use vstd::prelude::*;
use crate::client::error::ErrorKind;
use crate::ip::{ip_from_text, ip_string, ip_text, parse_ip_address, IpAddress};
use crate::text::{decimal_string, decimal_text, trim, trim_text};

verus! {

/// An address and port as the rest of the Internet sees the client.
#[derive(Clone, Copy, Debug, PartialEq, Eq, Structural)]
pub struct PublicEndpoint {
    pub ip: IpAddress,
    pub port: u16,
}

/// The text of an endpoint: its address, a colon and its port.
pub open spec fn endpoint_text(e: PublicEndpoint) -> Seq<char> {
    ip_text(e.ip) + ":"@ + decimal_text(e.port as nat)
}

impl PublicEndpoint {
    /// The text of the endpoint, `address:port`.
    pub fn to_text(&self) -> (r: String)
        ensures
            r@ == endpoint_text(*self),
    {
        let mut s = ip_string(self.ip);
        s.append(":");
        let p = decimal_string(self.port as u64);
        s.append(p.as_str());
        proof {
            reveal_strlit(":");
        }
        s
    }
}

/// The number of STUN servers asked.
pub const STUN_SERVER_COUNT: usize = 3;

/// The number of HTTP services asked.
pub const HTTP_SERVICE_COUNT: usize = 2;

/// The STUN servers, in the order they are asked.
pub fn stun_server(i: usize) -> (r: &'static str)
    requires
        i < STUN_SERVER_COUNT,
    ensures
        i == 0 ==> r@ == "stun.l.google.com:19302"@,
        i == 1 ==> r@ == "stun.cloudflare.com:3478"@,
        i == 2 ==> r@ == "stun.stunprotocol.org:3478"@,
{
    if i == 0 {
        "stun.l.google.com:19302"
    } else if i == 1 {
        "stun.cloudflare.com:3478"
    } else {
        "stun.stunprotocol.org:3478"
    }
}

/// The HTTP services that answer with the caller's address, in the order
/// they are asked.
pub fn http_ip_service(i: usize) -> (r: &'static str)
    requires
        i < HTTP_SERVICE_COUNT,
    ensures
        i == 0 ==> r@ == "https://icanhazip.com"@,
        i == 1 ==> r@ == "https://ifconfig.me/ip"@,
{
    if i == 0 {
        "https://icanhazip.com"
    } else {
        "https://ifconfig.me/ip"
    }
}

/// The seconds to wait for a STUN answer.
pub const STUN_TIMEOUT_SECS: u64 = 3;

/// The seconds to wait for an HTTP answer.
pub const HTTP_TIMEOUT_SECS: u64 = 5;

/// Whom discovery asks next.
#[derive(Clone, Copy, Debug, PartialEq, Eq, Structural)]
pub enum Probe {
    /// The STUN server of that index.
    Stun(usize),
    /// The HTTP service of that index.
    Http(usize),
}

/// Whether a probe names an existing server.
pub open spec fn probe_valid(p: Probe) -> bool {
    match p {
        Probe::Stun(i) => i < STUN_SERVER_COUNT,
        Probe::Http(i) => i < HTTP_SERVICE_COUNT,
    }
}

/// What asking a server gave.
#[derive(Clone, Copy, Debug)]
pub enum ProbeResult {
    /// No UDP socket could be set up for STUN, so no STUN server can be asked.
    StunUnavailable,
    /// A STUN server's answer, `None` when it gave none.
    Stun(Option<PublicEndpoint>),
    /// An HTTP service's answer, `None` when it gave none.
    Http(Option<IpAddress>),
}

/// Whether a result answers a probe.
pub open spec fn result_fits(p: Probe, r: ProbeResult) -> bool {
    match p {
        Probe::Stun(_) => r is StunUnavailable || r is Stun,
        Probe::Http(_) => r is Http,
    }
}

/// What discovery does next.
#[derive(Clone, Copy, Debug)]
pub enum DiscoveryStep {
    /// Ask this server.
    Ask(Probe),
    /// The public endpoint is found.
    Found(PublicEndpoint),
    /// Every server was asked and none answered.
    Failed,
}

/// Discovery starts with the first STUN server.
pub fn discovery_start() -> (p: Probe)
    ensures
        p == Probe::Stun(0),
{
    Probe::Stun(0)
}

/// The next step after asking `probe` and getting `result`: a STUN answer
/// is the endpoint; an HTTP answer is the address, with the local port.
/// Without an answer the next server is asked: the next STUN server, then
/// (also when STUN cannot be used at all) the HTTP services in order; when
/// the last HTTP service gives no answer, discovery has failed.
pub open spec fn discovery_next(probe: Probe, result: ProbeResult, local_port: u16) -> DiscoveryStep {
    match result {
        ProbeResult::Stun(Some(e)) => DiscoveryStep::Found(e),
        ProbeResult::Http(Some(ip)) => DiscoveryStep::Found(PublicEndpoint { ip, port: local_port }),
        ProbeResult::StunUnavailable => DiscoveryStep::Ask(Probe::Http(0)),
        ProbeResult::Stun(None) => match probe {
            Probe::Stun(i) => if i + 1 < STUN_SERVER_COUNT {
                DiscoveryStep::Ask(Probe::Stun((i + 1) as usize))
            } else {
                DiscoveryStep::Ask(Probe::Http(0))
            },
            Probe::Http(_) => DiscoveryStep::Failed,
        },
        ProbeResult::Http(None) => match probe {
            Probe::Http(i) => if i + 1 < HTTP_SERVICE_COUNT {
                DiscoveryStep::Ask(Probe::Http((i + 1) as usize))
            } else {
                DiscoveryStep::Failed
            },
            Probe::Stun(_) => DiscoveryStep::Failed,
        },
    }
}

/// Takes one step of discovery: see `discovery_next`.
pub fn discovery_step(probe: Probe, result: ProbeResult, local_port: u16) -> (s: DiscoveryStep)
    requires
        probe_valid(probe),
        result_fits(probe, result),
    ensures
        s == discovery_next(probe, result, local_port),
        s matches DiscoveryStep::Ask(p) ==> probe_valid(p),
        result matches ProbeResult::Stun(Some(e)) ==> s == DiscoveryStep::Found(e),
        result matches ProbeResult::Http(Some(ip)) ==> s == DiscoveryStep::Found(
            PublicEndpoint { ip, port: local_port },
        ),
        result is StunUnavailable ==> s == DiscoveryStep::Ask(Probe::Http(0)),
        result matches ProbeResult::Stun(None) ==> (probe matches Probe::Stun(i) && (i + 1
            < STUN_SERVER_COUNT ==> s == DiscoveryStep::Ask(Probe::Stun((i + 1) as usize))) && (i
            + 1 >= STUN_SERVER_COUNT ==> s == DiscoveryStep::Ask(Probe::Http(0)))),
        result matches ProbeResult::Http(None) ==> (probe matches Probe::Http(i) && (i + 1
            < HTTP_SERVICE_COUNT ==> s == DiscoveryStep::Ask(Probe::Http((i + 1) as usize))) && (i
            + 1 >= HTTP_SERVICE_COUNT ==> s == DiscoveryStep::Failed)),
{
    match result {
        ProbeResult::Stun(Some(e)) => DiscoveryStep::Found(e),
        ProbeResult::Http(Some(ip)) => DiscoveryStep::Found(PublicEndpoint { ip, port: local_port }),
        ProbeResult::StunUnavailable => DiscoveryStep::Ask(Probe::Http(0)),
        ProbeResult::Stun(None) => match probe {
            Probe::Stun(i) => if i + 1 < STUN_SERVER_COUNT {
                DiscoveryStep::Ask(Probe::Stun(i + 1))
            } else {
                DiscoveryStep::Ask(Probe::Http(0))
            },
            Probe::Http(_) => DiscoveryStep::Failed,
        },
        ProbeResult::Http(None) => match probe {
            Probe::Http(i) => if i + 1 < HTTP_SERVICE_COUNT {
                DiscoveryStep::Ask(Probe::Http(i + 1))
            } else {
                DiscoveryStep::Failed
            },
            Probe::Stun(_) => DiscoveryStep::Failed,
        },
    }
}

/// The first answer of a list of answers, if any.
pub open spec fn first_answer<T>(answers: Seq<Option<T>>) -> Option<T>
    decreases answers.len(),
{
    if answers.len() == 0 {
        None
    } else if answers[0] is Some {
        answers[0]
    } else {
        first_answer(answers.drop_first())
    }
}

/// What the servers answer: whether STUN can be used at all, the answer of
/// each STUN server and of each HTTP service.
pub struct Answers {
    pub stun_usable: bool,
    pub stun: Seq<Option<PublicEndpoint>>,
    pub http: Seq<Option<IpAddress>>,
}

/// The answer to a probe.
pub open spec fn answer_to(a: Answers, p: Probe) -> ProbeResult {
    match p {
        Probe::Stun(i) => if a.stun_usable {
            ProbeResult::Stun(a.stun[i as int])
        } else {
            ProbeResult::StunUnavailable
        },
        Probe::Http(i) => ProbeResult::Http(a.http[i as int]),
    }
}

/// Where discovery stands after at most `fuel` steps from `p`.
pub open spec fn discovery_run(a: Answers, p: Probe, local_port: u16, fuel: nat) -> DiscoveryStep
    decreases fuel,
{
    if fuel == 0 {
        DiscoveryStep::Ask(p)
    } else {
        match discovery_next(p, answer_to(a, p), local_port) {
            DiscoveryStep::Ask(q) => discovery_run(a, q, local_port, (fuel - 1) as nat),
            s => s,
        }
    }
}

/// Law: discovery finds the first STUN answer in the servers' order; when
/// STUN cannot be used or no STUN server answers, the first HTTP answer,
/// with the local port; and fails when nobody answers.  Asking every
/// server takes at most five steps.
pub proof fn law_discovery_finds_first_answer(a: Answers, local_port: u16)
    requires
        a.stun.len() == STUN_SERVER_COUNT,
        a.http.len() == HTTP_SERVICE_COUNT,
    ensures
        discovery_run(a, Probe::Stun(0), local_port, 5) == (if a.stun_usable && first_answer(
            a.stun,
        ) is Some {
            DiscoveryStep::Found(first_answer(a.stun)->0)
        } else if first_answer(a.http) is Some {
            DiscoveryStep::Found(PublicEndpoint { ip: first_answer(a.http)->0, port: local_port })
        } else {
            DiscoveryStep::Failed
        }),
{
    reveal_with_fuel(discovery_run, 6);
    reveal_with_fuel(first_answer, 4);
    let s = a.stun;
    let h = a.http;
    assert(s.drop_first().drop_first().drop_first().len() == 0);
    assert(h.drop_first().drop_first().len() == 0);
    assert(s.drop_first()[0] == s[1]);
    assert(s.drop_first().drop_first()[0] == s[2]);
    assert(h.drop_first()[0] == h[1]);
}

/// Reads the address an HTTP service answered: its body without
/// surrounding whitespace must be an IPv4 or IPv6 address; otherwise the
/// error carries the trimmed body.
pub fn parse_ip_response(body: &str) -> (r: Result<IpAddress, ErrorKind>)
    ensures
        ip_from_text(trim_text(body@)) matches Some(ip) ==> (r matches Ok(x) && x == ip),
        ip_from_text(trim_text(body@)) is None ==> (r matches Err(ErrorKind::ParseIp { body: b })
            && b@ == trim_text(body@)),
{
    let trimmed = trim(body);
    match parse_ip_address(trimmed.as_str()) {
        Some(ip) => Ok(ip),
        None => Err(ErrorKind::ParseIp { body: trimmed }),
    }
}

} // verus!
