//! How the server keeps devices in Valkey: a hash `peer:<key>` per device
//! and a bitmap of the subnet's taken host numbers.
use vstd::prelude::*;
use crate::allowed_ips::{allowed_ips_from_json, allowed_ips_json, allowed_ips_to_json};
use crate::ip::{all_valid, IpNet, Ipv4};
use crate::registry::allocation::mesh_address;
use crate::registry::storage::{field_value, fields_view};
use crate::server::error::ErrorKind;
use crate::text::{decimal_string, decimal_text};
use crate::valkey::{open_redis_client, redis_url_accepted};

verus! {

/// A device asking to join the mesh.
#[derive(Clone, Debug)]
pub struct RegisterRequest {
    pub public_key: String,
    pub public_ip: String,
    pub public_port: u16,
    pub allowed_ips: Vec<IpNet>,
}

/// A server store in Valkey.
pub struct ValkeyStorage {
    pub valkey_client: redis::Client,
}

/// The server's store.
pub enum Storage {
    Valkey(ValkeyStorage),
}

/// The store at 127.0.0.1.  Opening it fails exactly when the Redis client
/// refuses its URL.
pub fn get_storage_from_env() -> (r: Result<Storage, ErrorKind>)
    ensures
        r is Ok <==> redis_url_accepted("redis://127.0.0.1"@),
        r is Err ==> r->Err_0 is ValkeyConnect,
{
    match open_redis_client("redis://127.0.0.1") {
        Ok(client) => Ok(Storage::Valkey(ValkeyStorage { valkey_client: client })),
        Err(e) => Err(ErrorKind::ValkeyConnect { source: e }),
    }
}

/// The name of the bitmap of taken host numbers.
pub open spec fn subnet_key_text() -> Seq<char> {
    "allocation:10.100.0.0/24"@
}

/// The name of the bitmap of taken host numbers: `allocation:10.100.0.0/24`.
pub fn subnet_key() -> (r: &'static str)
    ensures
        r@ == subnet_key_text(),
{
    "allocation:10.100.0.0/24"
}

/// The number of host numbers the bitmap hands out.
pub const MAX_HOSTS: u8 = 254;

/// The mesh address for the bit `offset` that the store's allocation
/// script set: host number `offset + 1` (kept to its low 8 bits, as a cast
/// to `u8`); a negative offset means the subnet is exhausted.
pub fn mesh_ip_from_offset(offset: i64) -> (r: Result<Ipv4, ErrorKind>)
    requires
        offset < i64::MAX,
    ensures
        offset < 0 <==> r is Err,
        r matches Err(e) ==> e matches ErrorKind::ExhaustedSubnet { key } && key@
            == subnet_key_text(),
        r matches Ok(x) ==> x == Ipv4(10, 100, 0, ((offset + 1) % 256) as u8),
        0 <= offset < MAX_HOSTS ==> r == Ok::<Ipv4, ErrorKind>(mesh_address((offset + 1) as u8)),
{
    if offset < 0 {
        return Err(ErrorKind::ExhaustedSubnet { key: String::from_str(subnet_key()) });
    }
    let low = (offset % 256) as u16 + 1;
    let host = (low % 256) as u8;
    Ok(Ipv4(10, 100, 0, host))
}

/// The fields written for a registration holding `mesh_ip`: the public
/// key, the public address, the port in decimal, the allowed networks as
/// JSON and the mesh address.
pub open spec fn registration_fields_view(req: RegisterRequest, mesh_ip: Seq<char>) -> Seq<(Seq<char>, Seq<char>)> {
    seq![
        ("public_key"@, req.public_key@),
        ("public_ip"@, req.public_ip@),
        ("port"@, decimal_text(req.public_port as nat)),
        ("allowed_ips"@, allowed_ips_json(req.allowed_ips@)),
        ("mesh_ip"@, mesh_ip),
    ]
}

/// Law: a registration writes the request's own values, each under its
/// field name: the public key and public address as given, the port in
/// decimal, the JSON of all its networks, and the mesh address; five
/// fields in all.
pub proof fn law_registration_writes_request_fields(req: RegisterRequest, mesh_ip: Seq<char>)
    ensures
        registration_fields_view(req, mesh_ip).len() == 5,
        field_value(registration_fields_view(req, mesh_ip), "public_key"@) == Some(req.public_key@),
        field_value(registration_fields_view(req, mesh_ip), "public_ip"@) == Some(req.public_ip@),
        field_value(registration_fields_view(req, mesh_ip), "port"@) == Some(
            decimal_text(req.public_port as nat),
        ),
        field_value(registration_fields_view(req, mesh_ip), "allowed_ips"@) == Some(
            allowed_ips_json(req.allowed_ips@),
        ),
        field_value(registration_fields_view(req, mesh_ip), "mesh_ip"@) == Some(mesh_ip),
{
    let f5 = registration_fields_view(req, mesh_ip);
    reveal_strlit("public_key");
    reveal_strlit("public_ip");
    reveal_strlit("port");
    reveal_strlit("allowed_ips");
    reveal_strlit("mesh_ip");
    let f4 = f5.drop_last();
    let f3 = f4.drop_last();
    let f2 = f3.drop_last();
    let f1 = f2.drop_last();
    assert("public_key"@.len() == 10 && "public_ip"@.len() == 9 && "port"@.len() == 4);
    assert("allowed_ips"@.len() == 11 && "mesh_ip"@.len() == 7);
    assert(f5.last().0 == "mesh_ip"@ && f4.last().0 == "allowed_ips"@);
    assert(f3.last().0 == "port"@ && f2.last().0 == "public_ip"@);
    assert(f1.last().0 == "public_key"@);
    assert(field_value(f5, "allowed_ips"@) == field_value(f4, "allowed_ips"@));
    assert(field_value(f5, "port"@) == field_value(f4, "port"@));
    assert(field_value(f4, "port"@) == field_value(f3, "port"@));
    assert(field_value(f5, "public_ip"@) == field_value(f4, "public_ip"@));
    assert(field_value(f4, "public_ip"@) == field_value(f3, "public_ip"@));
    assert(field_value(f3, "public_ip"@) == field_value(f2, "public_ip"@));
    assert(field_value(f5, "public_key"@) == field_value(f4, "public_key"@));
    assert(field_value(f4, "public_key"@) == field_value(f3, "public_key"@));
    assert(field_value(f3, "public_key"@) == field_value(f2, "public_key"@));
    assert(field_value(f2, "public_key"@) == field_value(f1, "public_key"@));
}

/// The fields to write for the registration `req` holding `mesh_ip`;
/// writing the allowed networks as JSON always succeeds, so this does too.
pub fn registration_fields(req: &RegisterRequest, mesh_ip: &String) -> (r: Result<Vec<(String, String)>, ErrorKind>)
    requires
        all_valid(req.allowed_ips@),
    ensures
        r is Ok,
        r matches Ok(f) ==> fields_view(f@) == registration_fields_view(*req, mesh_ip@),
        r matches Ok(f) ==> f@.len() == 5,
        r matches Ok(f) ==> field_value(fields_view(f@), "public_key"@) == Some(req.public_key@),
        r matches Ok(f) ==> field_value(fields_view(f@), "public_ip"@) == Some(req.public_ip@),
        r matches Ok(f) ==> field_value(fields_view(f@), "port"@) == Some(
            decimal_text(req.public_port as nat),
        ),
        r matches Ok(f) ==> field_value(fields_view(f@), "allowed_ips"@) == Some(
            allowed_ips_json(req.allowed_ips@),
        ),
        r matches Ok(f) ==> (field_value(fields_view(f@), "allowed_ips"@) matches Some(t)
            && allowed_ips_from_json(t) == Some(req.allowed_ips@)),
        r matches Ok(f) ==> field_value(fields_view(f@), "mesh_ip"@) == Some(mesh_ip@),
{
    let json = match allowed_ips_to_json(&req.allowed_ips) {
        Ok(s) => s,
        Err(e) => return Err(ErrorKind::SerializeJson(e)),
    };
    let mut fields: Vec<(String, String)> = Vec::new();
    fields.push((String::from_str("public_key"), req.public_key.clone()));
    fields.push((String::from_str("public_ip"), req.public_ip.clone()));
    fields.push((String::from_str("port"), decimal_string(req.public_port as u64)));
    fields.push((String::from_str("allowed_ips"), json));
    fields.push((String::from_str("mesh_ip"), mesh_ip.clone()));
    assert(fields_view(fields@) =~= registration_fields_view(*req, mesh_ip@));
    proof {
        law_registration_writes_request_fields(*req, mesh_ip@);
    }
    Ok(fields)
}

} // verus!
