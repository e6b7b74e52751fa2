//! How the registry keeps devices in Valkey: a set `peers` of public keys
//! and, for each key, a hash `peer:<key>` of text fields.
use vstd::prelude::*;
use crate::allowed_ips::{
    allowed_ips_from_json, allowed_ips_json, allowed_ips_parse_json, allowed_ips_to_json,
};
use crate::ip::{all_valid, ip_string, ip_text, ipv4_from_text, ipv4_string, ipv4_text, parse_ipv4, IpNet, Ipv4};
use crate::registry::error::ErrorKind;
use crate::registry::allocation::is_taken;
use crate::registry::peer::{Peer, PeerView, RegisterRequest};
use crate::valkey::{open_redis_client, redis_url_accepted};

verus! {

/// A registry store in Valkey.
pub struct ValkeyStorage {
    pub valkey_client: redis::Client,
}

/// The registry's store.
pub enum Storage {
    Valkey(ValkeyStorage),
}

/// The URL of the registry's Valkey store.
pub open spec fn valkey_url() -> Seq<char> {
    "redis://127.0.0.1:6379/"@
}

/// The store at 127.0.0.1:6379.  Opening it fails exactly when the Redis
/// client refuses its URL.
pub fn get_storage_from_env() -> (r: Result<Storage, ErrorKind>)
    ensures
        r is Ok <==> redis_url_accepted(valkey_url()),
        r matches Err(e) ==> e matches ErrorKind::ValkeyConnect { address, .. } && address@
            == "127.0.0.1:6379/"@,
{
    match open_redis_client("redis://127.0.0.1:6379/") {
        Ok(client) => Ok(Storage::Valkey(ValkeyStorage { valkey_client: client })),
        Err(e) => Err(
            ErrorKind::ValkeyConnect { address: String::from_str("127.0.0.1:6379/"), source: e },
        ),
    }
}

/// The name of the set of registered public keys.
pub open spec fn peers_set_text() -> Seq<char> {
    "peers"@
}

/// The name of the set of registered public keys: `peers`.
pub fn peers_set_name() -> (r: &'static str)
    ensures
        r@ == peers_set_text(),
{
    "peers"
}

/// The name of the hash that holds a device's fields: `peer:<key>`.
pub open spec fn peer_hash_text(public_key: Seq<char>) -> Seq<char> {
    "peer:"@ + public_key
}

/// The name of the hash that holds the fields of the device `public_key`.
pub fn peer_hash_key(public_key: &str) -> (r: String)
    ensures
        r@ == peer_hash_text(public_key@),
{
    let mut k = String::from_str("peer:");
    k.append(public_key);
    k
}

/// Field names and values as plain texts.
pub open spec fn fields_view(fields: Seq<(String, String)>) -> Seq<(Seq<char>, Seq<char>)> {
    fields.map_values(|p: (String, String)| (p.0@, p.1@))
}

/// The value last written to the field `name`, if any.
pub open spec fn field_value(fields: Seq<(Seq<char>, Seq<char>)>, name: Seq<char>) -> Option<Seq<char>>
    decreases fields.len(),
{
    if fields.len() == 0 {
        None
    } else if fields.last().0 == name {
        Some(fields.last().1)
    } else {
        field_value(fields.drop_last(), name)
    }
}

/// The fields written for a registration: the public address as text, the
/// allowed networks as JSON, the port, and the mesh address as text.
pub open spec fn registration_fields_view(req: RegisterRequest, mesh_ip: Ipv4) -> Seq<(Seq<char>, Seq<char>)> {
    seq![
        ("public_ip"@, ip_text(req.public_ip)),
        ("allowed_ips"@, allowed_ips_json(req.allowed_ips@)),
        ("port"@, req.port@),
        ("mesh_ip"@, ipv4_text(mesh_ip)),
    ]
}

/// The peer that a registration describes once it holds `mesh_ip`.
pub open spec fn registered_peer(req: RegisterRequest, mesh_ip: Ipv4) -> PeerView {
    PeerView {
        public_key: req.public_key@,
        public_ip: ip_text(req.public_ip),
        port: req.port@,
        mesh_ip: mesh_ip,
        allowed_ips: req.allowed_ips@,
    }
}

/// Where a registration's mesh address comes from.
#[derive(Clone, Copy, Debug, PartialEq, Eq, Structural)]
pub enum MeshIpChoice {
    /// The device is registered already: it keeps this address.
    Reuse(Ipv4),
    /// The device is new: an address is allocated from the pool.
    Allocate,
}

/// The choice for the `mesh_ip` field read from the device's hash: a
/// stored address is kept, no stored address means allocating one.
pub open spec fn mesh_ip_choice(existing: Option<Seq<char>>) -> MeshIpChoice {
    match existing {
        Some(t) => MeshIpChoice::Reuse(ipv4_from_text(t)->0),
        None => MeshIpChoice::Allocate,
    }
}

/// Chooses where the mesh address of a registration comes from, given the
/// `mesh_ip` field of the device's hash; a stored field must hold an
/// address (the registry gives up on one that does not).
pub fn choose_mesh_ip(existing: &Option<String>) -> (r: MeshIpChoice)
    requires
        existing matches Some(t) ==> ipv4_from_text(t@) is Some,
    ensures
        r == mesh_ip_choice(opt_text(*existing)),
{
    match existing {
        Some(t) => match parse_ipv4(t.as_str()) {
            Some(x) => MeshIpChoice::Reuse(x),
            None => MeshIpChoice::Allocate,
        },
        None => MeshIpChoice::Allocate,
    }
}

/// Law: the mesh address written at a registration is read back from the
/// `mesh_ip` field as that same address, so a device that registers again
/// keeps its address, and its second registration writes the very same
/// fields as the first: registering twice changes nothing.
pub proof fn law_reregistration_keeps_mesh_ip(req: RegisterRequest, mesh_ip: Ipv4)
    ensures
        field_value(registration_fields_view(req, mesh_ip), "mesh_ip"@) matches Some(t)
            && ipv4_from_text(t) == Some(mesh_ip),
        mesh_ip_choice(field_value(registration_fields_view(req, mesh_ip), "mesh_ip"@))
            == MeshIpChoice::Reuse(mesh_ip),
{
    reveal_strlit("mesh_ip");
    crate::ip::law_ipv4_text_round_trip(mesh_ip);
}

/// Whether the registered devices (public key to mesh address) hold
/// pairwise different mesh addresses.
pub open spec fn addresses_distinct(devices: Map<Seq<char>, Ipv4>) -> bool {
    forall|j: Seq<char>, k: Seq<char>|
        #![trigger devices[j], devices[k]]
        devices.contains_key(j) && devices.contains_key(k) && j != k ==> devices[j] != devices[k]
}

/// Whether `assigned` names the mesh address of every registered device.
pub open spec fn names_every_device(assigned: Seq<Option<String>>, devices: Map<Seq<char>, Ipv4>) -> bool {
    forall|k: Seq<char>| devices.contains_key(k) ==> is_taken(assigned, #[trigger] devices[k])
}

/// Law: registering keeps the devices' mesh addresses pairwise different.
/// The device `key` gets `x`: when it is registered already, `existing` is
/// the text of its stored address and `x` is the address reused; when it
/// is new, `existing` is absent and `x` is allocated from texts `assigned`
/// that name every registered device's address, so `x` is none of them.
pub proof fn law_mesh_addresses_stay_distinct(
    devices: Map<Seq<char>, Ipv4>,
    key: Seq<char>,
    existing: Option<Seq<char>>,
    assigned: Seq<Option<String>>,
    x: Ipv4,
)
    requires
        addresses_distinct(devices),
        devices.contains_key(key) ==> existing == Some(ipv4_text(devices[key])),
        !devices.contains_key(key) ==> existing is None,
        mesh_ip_choice(existing) matches MeshIpChoice::Reuse(y) ==> x == y,
        mesh_ip_choice(existing) is Allocate ==> names_every_device(assigned, devices) && !is_taken(
            assigned,
            x,
        ),
    ensures
        addresses_distinct(devices.insert(key, x)),
{
    let after = devices.insert(key, x);
    if devices.contains_key(key) {
        crate::ip::law_ipv4_text_round_trip(devices[key]);
        assert(x == devices[key]);
        assert(after =~= devices);
    } else {
        assert forall|j: Seq<char>, k: Seq<char>|
            #![trigger after[j], after[k]]
            after.contains_key(j) && after.contains_key(k) && j != k implies after[j] != after[k] by {
            if j == key {
                assert(is_taken(assigned, devices[k]));
            } else if k == key {
                assert(is_taken(assigned, devices[j]));
            } else {
                assert(devices[j] != devices[k]);
            }
        }
    }
}

/// The fields of a device's hash, as read back (`None` where absent).
#[derive(Clone, Debug)]
pub struct PeerRecord {
    pub public_ip: Option<String>,
    pub port: Option<String>,
    pub mesh_ip: Option<String>,
    pub allowed_ips: Option<String>,
}

/// The text of an optional string.
pub open spec fn opt_text(o: Option<String>) -> Option<Seq<char>> {
    match o {
        Some(s) => Some(s@),
        None => None,
    }
}

/// The allowed networks read from an optional JSON field; absent or
/// unreadable JSON gives no networks.
pub open spec fn allowed_ips_field(json: Option<Seq<char>>) -> Seq<IpNet> {
    match json {
        Some(s) => match allowed_ips_from_json(s) {
            Some(v) => v,
            None => Seq::empty(),
        },
        None => Seq::empty(),
    }
}

/// The peer that the fields of the hash of `key` describe: it needs a
/// readable mesh address, a public address and a port.
pub open spec fn peer_from_fields(
    key: Seq<char>,
    public_ip: Option<Seq<char>>,
    port: Option<Seq<char>>,
    mesh_ip: Option<Seq<char>>,
    allowed_ips: Option<Seq<char>>,
) -> Option<PeerView> {
    match mesh_ip {
        Some(m) => match ipv4_from_text(m) {
            Some(x) => match public_ip {
                Some(ip) => match port {
                    Some(p) => Some(
                        PeerView {
                            public_key: key,
                            public_ip: ip,
                            port: p,
                            mesh_ip: x,
                            allowed_ips: allowed_ips_field(allowed_ips),
                        },
                    ),
                    None => None,
                },
                None => None,
            },
            None => None,
        },
        None => None,
    }
}

/// The peer that a record read back for `key` describes.
pub open spec fn record_peer(key: Seq<char>, rec: PeerRecord) -> Option<PeerView> {
    peer_from_fields(
        key,
        opt_text(rec.public_ip),
        opt_text(rec.port),
        opt_text(rec.mesh_ip),
        opt_text(rec.allowed_ips),
    )
}

/// Law: a hash that holds the fields written at a registration reads back
/// as the registered peer (same key, public address, port, mesh address
/// and allowed networks), provided the JSON of the networks reads back as
/// those networks, which writing them guarantees.
pub proof fn law_registration_reads_back(req: RegisterRequest, mesh_ip: Ipv4)
    requires
        allowed_ips_from_json(allowed_ips_json(req.allowed_ips@)) == Some(req.allowed_ips@),
    ensures
        ({
            let fv = registration_fields_view(req, mesh_ip);
            peer_from_fields(
                req.public_key@,
                field_value(fv, "public_ip"@),
                field_value(fv, "port"@),
                field_value(fv, "mesh_ip"@),
                field_value(fv, "allowed_ips"@),
            ) == Some(registered_peer(req, mesh_ip))
        }),
{
    let fv = registration_fields_view(req, mesh_ip);
    reveal_strlit("public_ip");
    reveal_strlit("allowed_ips");
    reveal_strlit("port");
    reveal_strlit("mesh_ip");
    let f3 = fv.drop_last();
    let f2 = f3.drop_last();
    let f1 = f2.drop_last();
    assert("public_ip"@.len() == 9 && "allowed_ips"@.len() == 11);
    assert("port"@.len() == 4 && "mesh_ip"@.len() == 7);
    assert(fv.last().0 == "mesh_ip"@ && f3.last().0 == "port"@);
    assert(f2.last().0 == "allowed_ips"@ && f1.last().0 == "public_ip"@);
    assert(field_value(fv, "mesh_ip"@) == Some(ipv4_text(mesh_ip)));
    assert(field_value(fv, "port"@) == field_value(f3, "port"@));
    assert(field_value(f3, "port"@) == Some(req.port@));
    assert(field_value(fv, "public_ip"@) == field_value(f3, "public_ip"@));
    assert(field_value(f3, "public_ip"@) == field_value(f2, "public_ip"@));
    assert(field_value(f2, "public_ip"@) == field_value(f1, "public_ip"@));
    assert(field_value(f1, "public_ip"@) == Some(ip_text(req.public_ip)));
    assert(field_value(fv, "allowed_ips"@) == field_value(f3, "allowed_ips"@));
    assert(field_value(f3, "allowed_ips"@) == field_value(f2, "allowed_ips"@));
    assert(field_value(f2, "allowed_ips"@) == Some(allowed_ips_json(req.allowed_ips@)));
    crate::ip::law_ipv4_text_round_trip(mesh_ip);
}

/// Law: a registration writes the request's own values: its public
/// address as text, the JSON of all its networks, its port as given, and
/// the mesh address as text, each under its field name; and the peer it
/// announces carries the request's key, address, port and networks and
/// the mesh address.
pub proof fn law_registration_writes_request_fields(req: RegisterRequest, mesh_ip: Ipv4)
    ensures
        field_value(registration_fields_view(req, mesh_ip), "public_ip"@) == Some(ip_text(req.public_ip)),
        field_value(registration_fields_view(req, mesh_ip), "allowed_ips"@) == Some(
            allowed_ips_json(req.allowed_ips@),
        ),
        field_value(registration_fields_view(req, mesh_ip), "port"@) == Some(req.port@),
        field_value(registration_fields_view(req, mesh_ip), "mesh_ip"@) == Some(ipv4_text(mesh_ip)),
        registration_fields_view(req, mesh_ip).len() == 4,
        registered_peer(req, mesh_ip).public_key == req.public_key@,
        registered_peer(req, mesh_ip).public_ip == ip_text(req.public_ip),
        registered_peer(req, mesh_ip).port == req.port@,
        registered_peer(req, mesh_ip).mesh_ip == mesh_ip,
        registered_peer(req, mesh_ip).allowed_ips == req.allowed_ips@,
{
    let fv = registration_fields_view(req, mesh_ip);
    reveal_strlit("public_ip");
    reveal_strlit("allowed_ips");
    reveal_strlit("port");
    reveal_strlit("mesh_ip");
    let f3 = fv.drop_last();
    let f2 = f3.drop_last();
    let f1 = f2.drop_last();
    assert("public_ip"@.len() == 9 && "allowed_ips"@.len() == 11);
    assert("port"@.len() == 4 && "mesh_ip"@.len() == 7);
    assert(fv.last().0 == "mesh_ip"@ && f3.last().0 == "port"@);
    assert(f2.last().0 == "allowed_ips"@ && f1.last().0 == "public_ip"@);
    assert(field_value(fv, "port"@) == field_value(f3, "port"@));
    assert(field_value(fv, "public_ip"@) == field_value(f3, "public_ip"@));
    assert(field_value(f3, "public_ip"@) == field_value(f2, "public_ip"@));
    assert(field_value(f2, "public_ip"@) == field_value(f1, "public_ip"@));
    assert(field_value(fv, "allowed_ips"@) == field_value(f3, "allowed_ips"@));
    assert(field_value(f3, "allowed_ips"@) == field_value(f2, "allowed_ips"@));
}

/// Law: listing keeps every record that describes a peer, whatever its
/// networks, and only those: going one pair further adds the peer that
/// the pair describes, or nothing when it describes none.
pub proof fn law_listing_keeps_every_described_peer(
    keys: Seq<String>,
    records: Seq<PeerRecord>,
    k: nat,
)
    requires
        k < keys.len(),
        k < records.len(),
    ensures
        record_peer(keys[k as int]@, records[k as int]) matches Some(p) ==> peers_of_records(
            keys,
            records,
            k + 1,
        ) == peers_of_records(keys, records, k).push(p),
        record_peer(keys[k as int]@, records[k as int]) is None ==> peers_of_records(
            keys,
            records,
            k + 1,
        ) == peers_of_records(keys, records, k),
{
}

/// Law: listing gives at most one peer per pair, and exactly one per pair
/// when every record describes a peer.
pub proof fn law_listing_length(keys: Seq<String>, records: Seq<PeerRecord>, k: nat)
    requires
        k <= keys.len(),
        k <= records.len(),
    ensures
        peers_of_records(keys, records, k).len() <= k,
        (forall|i: int| 0 <= i < k ==> #[trigger] record_peer(keys[i]@, records[i]) is Some)
            ==> peers_of_records(keys, records, k).len() == k,
    decreases k,
{
    if k > 0 {
        law_listing_length(keys, records, (k - 1) as nat);
        law_listing_keeps_every_described_peer(keys, records, (k - 1) as nat);
    }
}

/// Law: a record with a readable mesh address, a public address and a
/// port describes the peer of its key with exactly those values, and with
/// the networks its JSON reads as, or none when it has no readable JSON.
pub proof fn law_complete_record_describes_peer(key: Seq<char>, rec: PeerRecord)
    requires
        rec.mesh_ip matches Some(m) && ipv4_from_text(m@) is Some,
        rec.public_ip is Some,
        rec.port is Some,
    ensures
        record_peer(key, rec) is Some,
        record_peer(key, rec)->0.public_key == key,
        record_peer(key, rec)->0.public_ip == rec.public_ip->0@,
        record_peer(key, rec)->0.port == rec.port->0@,
        ipv4_from_text(rec.mesh_ip->0@) == Some(record_peer(key, rec)->0.mesh_ip),
        rec.allowed_ips is Some && allowed_ips_from_json(rec.allowed_ips->0@) is Some
            ==> Some(record_peer(key, rec)->0.allowed_ips) == allowed_ips_from_json(
            rec.allowed_ips->0@,
        ),
        !(rec.allowed_ips is Some && allowed_ips_from_json(rec.allowed_ips->0@) is Some)
            ==> record_peer(key, rec)->0.allowed_ips == Seq::<IpNet>::empty(),
{
    assert(opt_text(rec.mesh_ip) == Some(rec.mesh_ip->0@));
    assert(opt_text(rec.public_ip) == Some(rec.public_ip->0@));
    assert(opt_text(rec.port) == Some(rec.port->0@));
    if let Some(j) = rec.allowed_ips {
        assert(opt_text(rec.allowed_ips) == Some(j@));
        assert(allowed_ips_field(Some(j@)) == record_peer(key, rec)->0.allowed_ips);
    }
}

/// Law: every record that describes a peer has that peer in the listing,
/// whatever networks it announced, and every listed peer is the one that
/// some record describes.
pub proof fn law_listing_members(keys: Seq<String>, records: Seq<PeerRecord>, k: nat)
    requires
        k <= keys.len(),
        k <= records.len(),
    ensures
        forall|i: int|
            0 <= i < k && (#[trigger] record_peer(keys[i]@, records[i])) is Some ==> exists|j: int|
                0 <= j < peers_of_records(keys, records, k).len() && peers_of_records(
                    keys,
                    records,
                    k,
                )[j] == record_peer(keys[i]@, records[i])->0,
        forall|j: int|
            0 <= j < peers_of_records(keys, records, k).len() ==> exists|i: int|
                0 <= i < k && record_peer(keys[i]@, records[i]) == Some(
                    #[trigger] peers_of_records(keys, records, k)[j],
                ),
    decreases k,
{
    if k > 0 {
        let k1 = (k - 1) as nat;
        law_listing_members(keys, records, k1);
        law_listing_keeps_every_described_peer(keys, records, k1);
        let before = peers_of_records(keys, records, k1);
        let after = peers_of_records(keys, records, k);
        assert forall|i: int|
            0 <= i < k && (#[trigger] record_peer(keys[i]@, records[i])) is Some implies exists|j: int|
                0 <= j < after.len() && after[j] == record_peer(keys[i]@, records[i])->0 by {
            if i < k1 {
                let j = choose|j: int|
                    0 <= j < before.len() && before[j] == record_peer(keys[i]@, records[i])->0;
                assert(after[j] == before[j]);
            } else {
                assert(after[after.len() - 1] == record_peer(keys[i]@, records[i])->0);
            }
        }
        assert forall|j: int| 0 <= j < after.len() implies exists|i: int|
            0 <= i < k && record_peer(keys[i]@, records[i]) == Some(#[trigger] after[j]) by {
            if j < before.len() {
                assert(after[j] == before[j]);
                let i = choose|i: int|
                    0 <= i < k1 && record_peer(keys[i]@, records[i]) == Some(before[j]);
                assert(record_peer(keys[i]@, records[i]) == Some(after[j]));
            } else {
                assert(record_peer(keys[k1 as int]@, records[k1 as int]) == Some(after[j]));
            }
        }
    }
}

/// Law: a record is left out of the list exactly when its mesh address is
/// missing or unreadable, or it has no public address or no port.
pub proof fn law_incomplete_record_describes_nothing(key: Seq<char>, rec: PeerRecord)
    ensures
        record_peer(key, rec) is None <==> !(rec.mesh_ip matches Some(m) && ipv4_from_text(m@) is Some)
            || rec.public_ip is None || rec.port is None,
{
}

/// The fields to write for the registration `req` with mesh address
/// `mesh_ip`; writing the allowed networks as JSON always succeeds, so
/// this does too.  A hash holding these fields reads back as the
/// registered peer, with this very mesh address and these networks.
pub fn registration_fields(req: &RegisterRequest, mesh_ip: Ipv4) -> (r: Result<Vec<(String, String)>, ErrorKind>)
    requires
        all_valid(req.allowed_ips@),
    ensures
        r is Ok,
        r matches Ok(f) ==> fields_view(f@) == registration_fields_view(*req, mesh_ip),
        r matches Ok(f) ==> f@.len() == 4,
        r matches Ok(f) ==> field_value(fields_view(f@), "public_ip"@) == Some(ip_text(req.public_ip)),
        r matches Ok(f) ==> field_value(fields_view(f@), "port"@) == Some(req.port@),
        r matches Ok(f) ==> field_value(fields_view(f@), "mesh_ip"@) == Some(ipv4_text(mesh_ip)),
        r matches Ok(f) ==> field_value(fields_view(f@), "allowed_ips"@) == Some(
            allowed_ips_json(req.allowed_ips@),
        ),
        r matches Ok(f) ==> (field_value(fields_view(f@), "allowed_ips"@) matches Some(t)
            && allowed_ips_from_json(t) == Some(req.allowed_ips@)),
        r matches Ok(f) ==> ({
            let fv = fields_view(f@);
            peer_from_fields(
                req.public_key@,
                field_value(fv, "public_ip"@),
                field_value(fv, "port"@),
                field_value(fv, "mesh_ip"@),
                field_value(fv, "allowed_ips"@),
            ) == Some(registered_peer(*req, mesh_ip))
        }),
{
    let json = match allowed_ips_to_json(&req.allowed_ips) {
        Ok(s) => s,
        Err(e) => {
            return Err(
                ErrorKind::SerializeJson {
                    context: String::from_str("serializing allowed_ips"),
                    source: e,
                },
            );
        },
    };
    let mut fields: Vec<(String, String)> = Vec::new();
    fields.push((String::from_str("public_ip"), ip_string(req.public_ip)));
    fields.push((String::from_str("allowed_ips"), json));
    fields.push((String::from_str("port"), req.port.clone()));
    fields.push((String::from_str("mesh_ip"), ipv4_string(mesh_ip)));
    proof {
        let fv = fields_view(fields@);
        assert(fv =~= registration_fields_view(*req, mesh_ip));
        law_registration_reads_back(*req, mesh_ip);
        law_registration_writes_request_fields(*req, mesh_ip);
    }
    Ok(fields)
}

/// The peer that the fields read back for `key` describe, as the registry
/// lists peers: a readable mesh address, a public address and a port are
/// needed; unreadable allowed networks count as none.
pub fn peer_from_record(key: &String, rec: &PeerRecord) -> (r: Option<Peer>)
    ensures
        r matches Some(p) ==> record_peer(key@, *rec) == Some(p@),
        r is None <==> record_peer(key@, *rec) is None,
{
    let allowed_ips: Vec<IpNet> = match &rec.allowed_ips {
        Some(s) => match allowed_ips_parse_json(s.as_str()) {
            Some(v) => v,
            None => Vec::new(),
        },
        None => Vec::new(),
    };
    let mesh_ip = match &rec.mesh_ip {
        Some(m) => match parse_ipv4(m.as_str()) {
            Some(x) => x,
            None => return None,
        },
        None => return None,
    };
    let public_ip = match &rec.public_ip {
        Some(ip) => ip.clone(),
        None => return None,
    };
    let port = match &rec.port {
        Some(p) => p.clone(),
        None => return None,
    };
    let peer = Peer { public_key: key.clone(), public_ip, port, mesh_ip, allowed_ips };
    assert(peer@.allowed_ips =~= allowed_ips_field(opt_text(rec.allowed_ips)));
    Some(peer)
}

/// The peers described by the first `k` records, each paired with its key,
/// in order, leaving out records that describe no peer.
pub open spec fn peers_of_records(keys: Seq<String>, records: Seq<PeerRecord>, k: nat) -> Seq<PeerView>
    decreases k,
{
    if k == 0 {
        Seq::empty()
    } else {
        let before = peers_of_records(keys, records, (k - 1) as nat);
        match record_peer(keys[k - 1]@, records[k - 1]) {
            Some(p) => before.push(p),
            None => before,
        }
    }
}

/// The views of a list of peers.
pub open spec fn peers_view(peers: Seq<Peer>) -> Seq<PeerView> {
    peers.map_values(|p: Peer| p@)
}

/// The peers that the records read back describe; `records[i]` is the
/// hash of `keys[i]`, and pairs go as far as the shorter list.
pub fn peers_from_records(keys: &Vec<String>, records: &Vec<PeerRecord>) -> (r: Vec<Peer>)
    ensures
        peers_view(r@) == peers_of_records(
            keys@,
            records@,
            if keys@.len() <= records@.len() {
                keys@.len()
            } else {
                records@.len()
            },
        ),
        forall|i: int|
            0 <= i < keys@.len() && i < records@.len() && (#[trigger] record_peer(
                keys@[i]@,
                records@[i],
            )) is Some ==> exists|j: int|
                0 <= j < r@.len() && r@[j]@ == record_peer(keys@[i]@, records@[i])->0,
        forall|j: int|
            0 <= j < r@.len() ==> exists|i: int|
                0 <= i < keys@.len() && i < records@.len() && record_peer(keys@[i]@, records@[i])
                    == Some(#[trigger] r@[j]@),
        r@.len() <= keys@.len(),
        r@.len() <= records@.len(),
        (forall|i: int|
            0 <= i < keys@.len() && i < records@.len() ==> (#[trigger] record_peer(
                keys@[i]@,
                records@[i],
            )) is Some) ==> (r@.len() == keys@.len() || r@.len() == records@.len()),
{
    let n = if keys.len() <= records.len() {
        keys.len()
    } else {
        records.len()
    };
    let mut out: Vec<Peer> = Vec::new();
    let mut i: usize = 0;
    while i < n
        invariant
            i <= n,
            n <= keys@.len(),
            n <= records@.len(),
            peers_view(out@) == peers_of_records(keys@, records@, i as nat),
        decreases n - i,
    {
        let ghost before = out@;
        match peer_from_record(&keys[i], &records[i]) {
            Some(p) => {
                out.push(p);
                assert(peers_view(out@) =~= peers_view(before).push(p@));
            },
            None => {},
        }
        i = i + 1;
    }
    proof {
        law_listing_members(keys@, records@, n as nat);
        law_listing_length(keys@, records@, n as nat);
        let listed = peers_of_records(keys@, records@, n as nat);
        assert forall|j: int| 0 <= j < out@.len() implies out@[j]@ == listed[j] by {
            assert(peers_view(out@)[j] == out@[j]@);
        }
        assert(out@.len() == listed.len());
        assert forall|j: int| 0 <= j < out@.len() implies exists|i: int|
            0 <= i < keys@.len() && i < records@.len() && record_peer(keys@[i]@, records@[i])
                == Some(#[trigger] out@[j]@) by {
            assert(out@[j]@ == listed[j]);
            let i = choose|i: int| 0 <= i < n && record_peer(keys@[i]@, records@[i]) == Some(listed[j]);
            assert(record_peer(keys@[i]@, records@[i]) == Some(out@[j]@));
        }
    }
    out
}

} // verus!
