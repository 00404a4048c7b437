//! Network destinations and their identity.
//!
//! An endpoint is known to the rest of the crate by one datum, its canonical
//! address. Two endpoints are the same destination exactly when their
//! canonical addresses are equal; nothing else is ever compared.

use vstd::prelude::*;
use vstd::string::StringExecFns;

verus! {

/// The characters that stand between the network class and the address proper:
/// `://`.
pub open spec fn scheme_separator() -> Seq<char> {
    seq![':', '/', '/']
}

/// The canonical address of a destination: the network class, the separator
/// and the address, in that order, as in `tcp://127.0.0.1`.
pub open spec fn canonical_address(net: Seq<char>, addr: Seq<char>) -> Seq<char> {
    net + scheme_separator() + addr
}

/// A reachable network destination.
///
/// Implementations may be plain values or handles of a transport. Whatever
/// they hold, `address_view` is their whole identity, and it never changes
/// while the value lives.
pub trait Endpoint: Sync + Send + 'static {
    /// The canonical address, as a sequence of characters.
    spec fn address_view(&self) -> Seq<char>;

    /// An independent copy that stands for the same destination.
    fn clone_box(&self) -> (copy: Box<Self>)
        ensures
            copy.address_view() == self.address_view(),
    ;

    /// The canonical address, of the form `<network>://<address>`.
    fn address(&self) -> (text: String)
        ensures
            text@ == self.address_view(),
    ;
}

/// The canonical addresses of a list of endpoints, in the order of the list.
pub open spec fn addresses_of<E: Endpoint>(endpoints: Seq<Box<E>>) -> Seq<Seq<char>> {
    endpoints.map_values(|endpoint: Box<E>| endpoint.address_view())
}

/// A destination given by a network class (such as `tcp`) and an address.
///
/// Neither part is validated: whether the destination can be reached is for
/// the transport to find out.
#[derive(Debug)]
pub struct NetEndpoint {
    pub net: String,
    pub addr: String,
}

impl NetEndpoint {
    /// Builds the endpoint of network class `net` at address `addr`.
    pub fn new(net: &str, addr: &str) -> (endpoint: Self)
        ensures
            endpoint.net@ == net@,
            endpoint.addr@ == addr@,
            endpoint.address_view() == canonical_address(net@, addr@),
    {
        Self { net: net.to_owned(), addr: addr.to_owned() }
    }
}

impl Clone for NetEndpoint {
    /// A copy with the same parts, and so with the same address.
    fn clone(&self) -> (copy: Self)
        ensures
            copy == *self,
    {
        Self { net: self.net.clone(), addr: self.addr.clone() }
    }
}

impl Default for NetEndpoint {
    /// The endpoint whose network class and address are both empty.
    fn default() -> (endpoint: Self)
        ensures
            endpoint.net@ == Seq::<char>::empty(),
            endpoint.addr@ == Seq::<char>::empty(),
    {
        Self { net: String::new(), addr: String::new() }
    }
}

impl Endpoint for NetEndpoint {
    open spec fn address_view(&self) -> Seq<char> {
        canonical_address(self.net@, self.addr@)
    }

    fn clone_box(&self) -> (copy: Box<Self>)
        ensures
            *copy == *self,
    {
        Box::new(self.clone())
    }

    fn address(&self) -> (text: String) {
        let mut text = self.net.clone();
        text.append("://");
        text.append(self.addr.as_str());
        proof {
            reveal_strlit("://");
        }
        text
    }
}

/// Address identity: endpoints built from equal parts have equal canonical
/// addresses, and are therefore the same destination to every operation that
/// identifies a connection by its address.
pub proof fn lemma_equal_parts_equal_address(first: NetEndpoint, second: NetEndpoint)
    requires
        first.net@ == second.net@,
        first.addr@ == second.addr@,
    ensures
        first.address_view() == second.address_view(),
{
}

} // verus!
