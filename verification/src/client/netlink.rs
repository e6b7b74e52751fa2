//! Reading the kernel's answers to netlink requests.
use vstd::prelude::*;
use crate::ip::{ip_string, ip_text, IpNet};
use crate::text::{decimal_string, decimal_text};

verus! {

/// `libc::EEXIST`, the "already exists" error number (17 on Linux, where
/// the client runs).
#[verifier::external_body]
fn eexist() -> (r: i32)
    ensures
        r == 17,
{
    libc::EEXIST
}

/// The kernel's answer to adding an address or a route.
#[derive(Clone, Copy, Debug, PartialEq, Eq, Structural)]
pub enum NetlinkReply {
    /// The request was carried out.
    Done,
    /// The kernel refused it with this (negative) error code.
    NetlinkError(i32),
    /// The request failed otherwise.
    OtherError,
}

/// What the answer means to the client.
#[derive(Clone, Copy, Debug, PartialEq, Eq, Structural)]
pub enum NetlinkOutcome {
    /// The address or route was added.
    Added,
    /// It was there already, which is as good.
    AlreadyPresent,
    /// It could not be added.
    Failed,
}

/// Adding something that already exists (`-EEXIST`) counts as done; any
/// other error is a failure.
pub fn netlink_outcome(reply: NetlinkReply) -> (r: NetlinkOutcome)
    ensures
        reply is Done ==> r == NetlinkOutcome::Added,
        reply matches NetlinkReply::NetlinkError(c) ==> (c == -17 ==> r
            == NetlinkOutcome::AlreadyPresent) && (c != -17 ==> r == NetlinkOutcome::Failed),
        reply is OtherError ==> r == NetlinkOutcome::Failed,
{
    match reply {
        NetlinkReply::Done => NetlinkOutcome::Added,
        NetlinkReply::NetlinkError(c) => {
            let e = eexist();
            if c == -e {
                NetlinkOutcome::AlreadyPresent
            } else {
                NetlinkOutcome::Failed
            }
        },
        NetlinkReply::OtherError => NetlinkOutcome::Failed,
    }
}

/// The CIDR text of a network, `address/prefix`, as `ipnetwork` writes it.
pub open spec fn net_text(n: IpNet) -> Seq<char> {
    ip_text(n.addr) + "/"@ + decimal_text(n.prefix as nat)
}

/// The CIDR text of a network, naming a route in errors.
pub fn net_string(n: IpNet) -> (r: String)
    ensures
        r@ == net_text(n),
{
    let mut s = ip_string(n.addr);
    s.append("/");
    let p = decimal_string(n.prefix as u64);
    s.append(p.as_str());
    s
}

} // verus!
