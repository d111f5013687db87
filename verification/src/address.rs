//! Where the driver itself listens.

use crate::text::{decimal, decimal_text, owned};
use vstd::prelude::*;

verus! {

/// The host on which the driver serves.
pub const HOST: &'static str = "localhost";

/// A host and a port in the form that a resolver takes.
pub open spec fn endpoint_spec(host: Seq<char>, port: u16) -> Seq<char> {
    host + ":"@ + decimal(port as nat)
}

/// The origin from which requests to the driver are allowed.
pub open spec fn origin_spec(port: u16) -> Seq<char> {
    "http://"@ + HOST@ + ":"@ + decimal(port as nat)
}

/// `index` is the place of the address to serve on: the first address of
/// the older protocol version if there is one, and the first address if
/// there is not.
pub open spec fn is_preferred(is_ipv4: Seq<bool>, index: int) -> bool {
    &&& 0 <= index < is_ipv4.len()
    &&& forall|j: int| 0 <= j < index ==> !is_ipv4[j]
    &&& is_ipv4[index] || (index == 0 && forall|j: int| 0 <= j < is_ipv4.len() ==> !is_ipv4[j])
}

/// A host and a port in the form that a resolver takes.
pub fn endpoint(host: &str, port: u16) -> (r: String)
    ensures
        r@ == endpoint_spec(host@, port),
{
    let digits = decimal_text(port);
    let mut out = owned(host);
    out.append(":");
    out.append(digits.as_str());
    out
}

/// The origin from which requests to the driver are allowed.
pub fn origin(port: u16) -> (r: String)
    ensures
        r@ == origin_spec(port),
{
    let digits = decimal_text(port);
    let mut out = owned("http://");
    out.append(HOST);
    out.append(":");
    out.append(digits.as_str());
    out
}

/// Picks the address to serve on among those that a name resolved to, given
/// for each of them whether it is of the older protocol version: the first
/// that is, or else the first of all. `None` says that there is no address.
pub fn preferred_address(is_ipv4: &Vec<bool>) -> (r: Option<usize>)
    ensures
        r is None <==> is_ipv4.len() == 0,
        r matches Some(index) ==> is_preferred(is_ipv4@, index as int),
{
    let mut i: usize = 0;
    while i < is_ipv4.len()
        invariant
            i <= is_ipv4.len(),
            forall|j: int| 0 <= j < i ==> !is_ipv4[j],
        decreases is_ipv4.len() - i,
    {
        if is_ipv4[i] {
            return Some(i);
        }
        i += 1;
    }
    if is_ipv4.len() == 0 {
        None
    } else {
        Some(0)
    }
}

} // verus!
