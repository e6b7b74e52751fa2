//! The decisions of the server's registration endpoint.
use vstd::prelude::*;
use crate::key::{parse_wireguard_key, wireguard_key_decoded};
use crate::server::error::ErrorKind;
use crate::server::storage::RegisterRequest;

verus! {

/// The answer to a registration: the device's mesh address.
#[derive(Clone, Debug)]
pub struct RegisterResponse {
    pub mesh_ip: String,
}

/// A registration goes ahead only for a WireGuard key.
pub fn check_register_key(req: &RegisterRequest) -> (r: Result<(), ErrorKind>)
    ensures
        r is Ok <==> wireguard_key_decoded(req.public_key@) is Some,
        r is Err ==> r->Err_0 is InvalidKey,
{
    match parse_wireguard_key(req.public_key.as_str()) {
        Ok(_) => Ok(()),
        Err(_) => Err(ErrorKind::InvalidKey),
    }
}

} // verus!
