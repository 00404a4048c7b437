//! Discovery of the current endpoint set.
//!
//! A resolver finds the endpoints that serve a logical target. Every answer is
//! the complete set, never a difference to an earlier one, and comes with a
//! [`Version`] that names the snapshot. A caller hands the version it saw last
//! to the next resolution and compares it with the one that comes back.
//!
//! Resolution as such may wait for a registry or a name server. That waiting is
//! done around this module: what is here is the part that computes, and it
//! returns at once.

use crate::endpoint::{addresses_of, Endpoint};
use vstd::prelude::*;
use vstd::std_specs::cmp::PartialEqSpecImpl;

verus! {

/// A token that names one snapshot of an endpoint set.
///
/// Versions are compared for equality and for nothing else: the text is never
/// parsed and has no order.
#[derive(Debug)]
pub struct Version {
    pub opaque: String,
}

impl View for Version {
    type V = Seq<char>;

    open spec fn view(&self) -> Seq<char> {
        self.opaque@
    }
}

impl Clone for Version {
    /// A copy with the same text.
    fn clone(&self) -> (copy: Self)
        ensures
            copy == *self,
    {
        Self { opaque: self.opaque.clone() }
    }
}

impl PartialEq for Version {
    /// Whether both versions name the same snapshot.
    fn eq(&self, other: &Self) -> (same: bool) {
        self.opaque == other.opaque
    }
}

impl PartialEqSpecImpl for Version {
    open spec fn obeys_eq_spec() -> bool {
        true
    }

    open spec fn eq_spec(&self, other: &Self) -> bool {
        self@ == other@
    }
}

/// Why a resolution gave no endpoint set.
///
/// Either way the current set is unknown. A caller keeps the set it knew last
/// and tries again later; it never takes a failure for an empty set.
#[derive(Debug, Clone, Copy, PartialEq, Eq, Structural)]
pub enum ResolutionError {
    /// The discovery backend could not be reached.
    Unreachable,
    /// The discovery backend answered with data that could not be read.
    Malformed,
}

/// The version that a [`ConstantResolver`] gives to its one snapshot:
/// `constant`.
pub open spec fn constant_version() -> Seq<char> {
    seq!['c', 'o', 'n', 's', 't', 'a', 'n', 't']
}

/// A source of the current endpoint set of a logical target.
pub trait Resolver {
    /// The kind of endpoint that the resolver finds.
    type Target: Endpoint;

    /// Whether the endpoint set can never change after the first resolution.
    /// It is a property of the resolver, the same for its whole life. Unless
    /// an implementation says otherwise, a resolver is not constant.
    open spec fn constant(&self) -> bool {
        false
    }

    /// Of a constant resolver, the canonical addresses of the one endpoint set
    /// that it resolves to; of any other resolver, without meaning.
    open spec fn constant_set(&self) -> Seq<Seq<char>> {
        Seq::empty()
    }

    /// Tells whether the resolver is constant. A caller may resolve a constant
    /// resolver once and never ask again.
    fn is_constant(&self) -> (constant: bool)
        ensures
            constant == self.constant(),
    ;

    /// Finds the complete current endpoint set and the version that names it.
    /// `last` is the version that the caller saw last. A failure says that the
    /// set is unknown, not that it is empty.
    ///
    /// Every successful resolution of a constant resolver yields the same set.
    fn resolve(&self, last: Version) -> (outcome: Result<
        (Vec<Box<Self::Target>>, Version),
        ResolutionError,
    >)
        ensures
            self.constant() ==> (outcome matches Ok(found) ==> addresses_of(found.0@)
                == self.constant_set()),
    ;
}

/// A resolver over a list of endpoints that is fixed when the resolver is
/// built. It needs no discovery backend and never fails.
pub struct ConstantResolver<E: Endpoint> {
    pub endpoints: Vec<Box<E>>,
}

impl<E: Endpoint> ConstantResolver<E> {
    /// A resolver over the empty list.
    pub fn new() -> (resolver: Self)
        ensures
            resolver.endpoints@ == Seq::<Box<E>>::empty(),
    {
        Self { endpoints: Vec::new() }
    }

    /// What every resolution yields: the addresses of the list, in its order,
    /// and the version. The version that the caller saw last plays no part.
    pub open spec fn resolution(&self, last: Version) -> (Seq<Seq<char>>, Seq<char>) {
        (addresses_of(self.endpoints@), constant_version())
    }
}

impl<E: Endpoint> Resolver for ConstantResolver<E> {
    type Target = E;

    open spec fn constant(&self) -> bool {
        true
    }

    open spec fn constant_set(&self) -> Seq<Seq<char>> {
        addresses_of(self.endpoints@)
    }

    fn is_constant(&self) -> (constant: bool) {
        true
    }

    fn resolve(&self, last: Version) -> (outcome: Result<(Vec<Box<E>>, Version), ResolutionError>)
        ensures
            outcome matches Ok(found) && (addresses_of(found.0@), found.1@) == self.resolution(
                last,
            ),
    {
        let mut endpoints: Vec<Box<E>> = Vec::new();
        let mut index: usize = 0;
        while index < self.endpoints.len()
            invariant
                index <= self.endpoints@.len(),
                endpoints@.len() == index,
                forall|copied: int|
                    0 <= copied < index ==> endpoints@[copied].address_view()
                        == self.endpoints@[copied].address_view(),
            decreases self.endpoints@.len() - index,
        {
            endpoints.push(self.endpoints[index].clone_box());
            index += 1;
        }
        let version = Version { opaque: "constant".to_owned() };
        proof {
            reveal_strlit("constant");
        }
        Ok((endpoints, version))
    }
}

/// Constant resolver stability. Whatever version the caller saw last, a
/// constant resolver resolves to the same endpoint set and the same version,
/// and it says of itself that it is constant.
pub proof fn lemma_constant_resolution_is_stable<E: Endpoint>(
    resolver: ConstantResolver<E>,
    first: Version,
    second: Version,
)
    ensures
        resolver.constant(),
        resolver.resolution(first) == resolver.resolution(second),
        resolver.resolution(first).0 == resolver.constant_set(),
{
}

} // verus!
