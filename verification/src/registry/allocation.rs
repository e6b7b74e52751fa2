//! Mesh addresses: the pool 10.100.0.1 ..= 10.100.0.254, handed out lowest
//! free address first.
use vstd::prelude::*;
use crate::ip::{ipv4_from_text, ipv4_text, law_ipv4_text_round_trip, parse_ipv4, Ipv4};
use crate::registry::error::ErrorKind;

verus! {

/// The lowest host number of the pool.
pub const MESH_POOL_START: u8 = 1;

/// The highest host number of the pool.
pub const MESH_POOL_END: u8 = 254;

/// The mesh address with host number `host`: 10.100.0.`host`.
pub open spec fn mesh_address(host: u8) -> Ipv4 {
    Ipv4(10, 100, 0, host)
}

/// Whether `host` numbers an address of the pool.
pub open spec fn in_pool(host: u8) -> bool {
    MESH_POOL_START <= host <= MESH_POOL_END
}

/// Whether entry `i` of `texts` is the text of the address `x`.
pub open spec fn names_at(texts: Seq<Option<String>>, i: int, x: Ipv4) -> bool {
    texts[i] matches Some(t) && t@ == ipv4_text(x)
}

/// Whether one of `texts` is the text of the address `x`.
pub open spec fn is_taken(texts: Seq<Option<String>>, x: Ipv4) -> bool {
    exists|i: int| 0 <= i < texts.len() && #[trigger] names_at(texts, i, x)
}

/// The name of the pool, for errors.
pub fn mesh_pool_name() -> (r: String)
    ensures
        r@ == "10.100.0.0/24"@,
{
    String::from_str("10.100.0.0/24")
}

/// The mesh address with host number `host`.
pub fn mesh_address_of(host: u8) -> (r: Ipv4)
    ensures
        r == mesh_address(host),
{
    Ipv4(10, 100, 0, host)
}

/// Chooses the address for a new device, given the texts of the mesh
/// addresses the registered devices hold (`None` where a device has none).
/// Texts that are not addresses are ignored.  The result is the free
/// address of the pool with the lowest host number; when every address of
/// the pool is taken, the pool is exhausted.
pub fn allocate_mesh_ip(assigned: &Vec<Option<String>>) -> (r: Result<Ipv4, ErrorKind>)
    ensures
        r matches Ok(x) ==> exists|h: u8|
            #![trigger mesh_address(h)]
            {
                &&& in_pool(h)
                &&& x == mesh_address(h)
                &&& !is_taken(assigned@, x)
                &&& forall|g: u8| MESH_POOL_START <= g < h ==> is_taken(assigned@, #[trigger] mesh_address(g))
            },
        r is Err <==> forall|h: u8| in_pool(h) ==> is_taken(assigned@, #[trigger] mesh_address(h)),
        r matches Err(e) ==> e matches ErrorKind::IpPoolExhausted { pool } && pool@ == "10.100.0.0/24"@,
{
    let mut taken: Vec<bool> = Vec::new();
    let mut h: usize = 0;
    while h < 256
        invariant
            h <= 256,
            taken@.len() == h,
            forall|k: int| 0 <= k < h ==> !(#[trigger] taken@[k]),
        decreases 256 - h,
    {
        taken.push(false);
        h = h + 1;
    }
    let n = assigned.len();
    let mut i: usize = 0;
    while i < n
        invariant
            i <= n,
            n == assigned@.len(),
            taken@.len() == 256,
            forall|g: u8|
                #![trigger mesh_address(g)]
                taken@[g as int] <==> exists|j: int|
                    0 <= j < i && #[trigger] names_at(assigned@, j, mesh_address(g)),
        decreases n - i,
    {
        let ghost before = taken@;
        if let Some(t) = &assigned[i] {
            if let Some(x) = parse_ipv4(t.as_str()) {
                if x.0 == 10 && x.1 == 100 && x.2 == 0 {
                    taken.set(x.3 as usize, true);
                }
            }
        }
        proof {
            assert forall|g: u8|
                taken@[g as int] <==> (exists|j: int|
                    0 <= j < i + 1 && #[trigger] names_at(assigned@, j, mesh_address(g))) by {
                let m = mesh_address(g);
                if names_at(assigned@, i as int, m) {
                    let t = assigned@[i as int]->0;
                    assert(t@ == ipv4_text(m));
                    law_ipv4_text_round_trip(m);
                    assert(taken@[g as int]);
                } else {
                    if taken@[g as int] && !before[g as int] {
                        let t = assigned@[i as int]->0;
                        let x = ipv4_from_text(t@)->0;
                        assert(ipv4_text(x) == t@);
                        assert(x == m);
                    }
                    assert(taken@[g as int] == before[g as int]);
                    if exists|j: int| 0 <= j < i + 1 && #[trigger] names_at(assigned@, j, m) {
                        let j = choose|j: int| 0 <= j < i + 1 && #[trigger] names_at(assigned@, j, m);
                        assert(j < i);
                    }
                }
            }
        }
        i = i + 1;
    }
    let mut host: u8 = MESH_POOL_START;
    while host <= MESH_POOL_END
        invariant
            MESH_POOL_START <= host <= MESH_POOL_END + 1,
            taken@.len() == 256,
            forall|g: u8|
                #![trigger mesh_address(g)]
                taken@[g as int] <==> is_taken(assigned@, mesh_address(g)),
            forall|g: u8| MESH_POOL_START <= g < host ==> is_taken(assigned@, #[trigger] mesh_address(g)),
        decreases MESH_POOL_END + 1 - host,
    {
        if !taken[host as usize] {
            let x = mesh_address_of(host);
            assert(!is_taken(assigned@, mesh_address(host)));
            return Ok(x);
        }
        assert(is_taken(assigned@, mesh_address(host)));
        host = host + 1;
    }
    Err(ErrorKind::IpPoolExhausted { pool: mesh_pool_name() })
}

} // verus!
