//! Registering with the registry and leaving it.
use vstd::prelude::*;
use crate::client::config::Config;
use crate::client::discovery::PublicEndpoint;
use crate::client::error::ErrorKind;
use crate::ip::{IpAddress, IpNet};
use crate::text::{decimal_string, decimal_text};

verus! {

/// What the client sends to register.
#[derive(Clone, Debug)]
pub struct RegisterRequest {
    pub public_ip: IpAddress,
    pub public_key: String,
    pub port: String,
    pub allowed_ips: Vec<IpNet>,
}

/// The registration URL: the registry's URL followed by `/register`.
pub fn register_url(base: &str) -> (r: String)
    ensures
        r@ == base@ + "/register"@,
{
    let mut u = String::from_str(base);
    u.append("/register");
    u
}

/// The deregistration URL: the registry's URL, `/deregister?public_key=`
/// and the public key, as given.
pub fn deregister_url(base: &str, public_key: &str) -> (r: String)
    ensures
        r@ == base@ + "/deregister?public_key="@ + public_key@,
{
    let mut u = String::from_str(base);
    u.append("/deregister?public_key=");
    u.append(public_key);
    u
}

/// The registration of this client at `endpoint`: its public key, the
/// endpoint's address, the endpoint's port in decimal, and the configured
/// allowed networks (none when none are configured).
pub fn registration_request(config: &Config, endpoint: &PublicEndpoint) -> (r: RegisterRequest)
    ensures
        r.public_ip == endpoint.ip,
        r.public_key@ == config.interface.public_key@,
        r.port@ == decimal_text(endpoint.port as nat),
        r.allowed_ips@ == match config.interface.allowed_ips {
            Some(v) => v@,
            None => Seq::<IpNet>::empty(),
        },
{
    let allowed_ips: Vec<IpNet> = match &config.interface.allowed_ips {
        Some(v) => v.clone(),
        None => Vec::new(),
    };
    proof {
        if config.interface.allowed_ips is Some {
            assert(allowed_ips@ =~= config.interface.allowed_ips->0@);
        }
    }
    RegisterRequest {
        public_ip: endpoint.ip,
        public_key: config.interface.public_key.clone(),
        port: decimal_string(endpoint.port as u64),
        allowed_ips,
    }
}

/// Whether an HTTP status is a success (200 to 299).
pub open spec fn is_success_status(status: u16) -> bool {
    200 <= status <= 299
}

/// A registration answered with a status other than a success fails,
/// carrying the status and the answer's body.
pub fn check_registration_status(status: u16, body: String) -> (r: Result<(), ErrorKind>)
    ensures
        r is Ok <==> is_success_status(status),
        !is_success_status(status) ==> (r matches Err(ErrorKind::RegistrationStatus {
            status: s,
            body: b,
        }) && s == status && b@ == body@),
{
    if 200 <= status && status <= 299 {
        Ok(())
    } else {
        Err(ErrorKind::RegistrationStatus { status, body })
    }
}

} // verus!
