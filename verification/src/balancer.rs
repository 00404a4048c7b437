//! Per-call selection of a connection from a managed set.
//!
//! A balancer owns a set of connections, kept in the order in which they were
//! added, and hands one of them out for every call. Connections are identified
//! by their canonical address alone.
//!
//! A pick does not take the connection away from the set: the balancer hands
//! out an independent copy (see [`Endpoint::clone_box`]) and keeps its own, so
//! the set changes only through `add` and `remove`, and nothing has to be given
//! back after a call.
//!
//! A balancer does no locking. Its operations take `&mut self`, so the compiler
//! already keeps two of them from running at once; a client that shares a
//! balancer between threads wraps it in a lock of its own.

use crate::endpoint::{addresses_of, Endpoint, NetEndpoint};
use crate::options::CallOptions;
use crate::rotation::Rotation;
use vstd::prelude::*;

verus! {

/// A set of connections with a policy that selects one of them per call.
///
/// The operations of one balancer must not run concurrently; `&mut self`
/// enforces that.
pub trait Balancer {
    /// The kind of connection that the balancer manages.
    type Connection: Endpoint;

    /// The canonical addresses of the managed connections, oldest first. An
    /// address occurs as often as it was added and not yet removed.
    spec fn members(&self) -> Seq<Seq<char>>;

    /// Adds `conn` to the managed connections, behind all others. A
    /// connection whose address is already present is added all the same.
    fn add(&mut self, conn: Box<Self::Connection>)
        ensures
            final(self).members() == old(self).members().push(conn.address_view()),
    ;

    /// Removes the oldest managed connection that has the address of `conn`.
    /// Does nothing when there is none.
    fn remove(&mut self, conn: &Self::Connection)
        ensures
            final(self).members() == old(self).members().remove_value(conn.address_view()),
            !old(self).members().contains(conn.address_view()) ==> final(self).members() == old(
                self,
            ).members(),
    ;

    /// Selects a managed connection for one call and hands out a copy of it,
    /// or `None` when no connection is managed. The managed connections stay
    /// as they are.
    fn pick(&mut self, options: &CallOptions) -> (picked: Option<Box<Self::Connection>>)
        ensures
            final(self).members() == old(self).members(),
            picked is None <==> old(self).members().len() == 0,
            picked matches Some(conn) ==> old(self).members().contains(conn.address_view()),
    ;
}

/// A balancer that hands out its connections in turn, oldest first, and starts
/// over after the newest.
///
/// It keeps the connections in the order in which they were added, and a
/// cursor. A pick wraps the cursor to the start when it has reached the end,
/// hands out a copy of the connection at the cursor and moves the cursor on by
/// one. A removal in front of the cursor moves the cursor down by one, so that
/// it stays with the connection whose turn it is. Its view is the
/// [`Rotation`] of the addresses and the cursor.
pub struct RoundRobin<C: Endpoint> {
    connections: Vec<Box<C>>,
    next: usize,
}

impl<C: Endpoint> View for RoundRobin<C> {
    type V = Rotation;

    closed spec fn view(&self) -> Rotation {
        Rotation { members: addresses_of(self.connections@), cursor: self.next as nat }
    }
}

impl<C: Endpoint> RoundRobin<C> {
    /// The index of the oldest connection whose address is `target`.
    fn position(&self, target: &String) -> (found: Option<usize>)
        ensures
            match found {
                Some(index) => self@.members.index_of_first(target@) == Some(index as int),
                None => self@.members.index_of_first(target@) is None,
            },
    {
        let mut index: usize = 0;
        while index < self.connections.len()
            invariant
                index <= self.connections@.len(),
                forall|earlier: int|
                    0 <= earlier < index ==> self@.members[earlier] != target@,
            decreases self.connections@.len() - index,
        {
            let address = self.connections[index].address();
            if address == *target {
                proof {
                    let members = self@.members;
                    assert(members[index as int] == target@);
                    members.index_of_first_ensures(target@);
                }
                return Some(index);
            }
            index += 1;
        }
        proof {
            self@.members.index_of_first_ensures(target@);
        }
        None
    }
}

impl<C: Endpoint> Balancer for RoundRobin<C> {
    type Connection = C;

    open spec fn members(&self) -> Seq<Seq<char>> {
        self@.members
    }

    fn add(&mut self, conn: Box<C>)
        ensures
            final(self)@ == old(self)@.after_add(conn.address_view()),
            old(self)@.wf() ==> final(self)@.wf(),
    {
        self.connections.push(conn);
        assert(final(self)@.members =~= old(self)@.members.push(conn.address_view()));
    }

    fn remove(&mut self, conn: &C)
        ensures
            final(self)@ == old(self)@.after_remove(conn.address_view()),
            !old(self)@.members.contains(conn.address_view()) ==> final(self)@ == old(self)@,
            old(self)@.wf() ==> final(self)@.wf(),
    {
        let target = conn.address();
        let found = self.position(&target);
        proof {
            self@.members.index_of_first_ensures(target@);
        }
        if let Some(index) = found {
            if index < self.next {
                self.next = self.next - 1;
            }
            self.connections.remove(index);
        }
    }

    fn pick(&mut self, options: &CallOptions) -> (picked: Option<Box<C>>)
        ensures
            final(self)@ == old(self)@.after_pick(),
            old(self)@.wf() ==> final(self)@.wf(),
            match picked {
                Some(conn) => old(self)@.next_member() == Some(conn.address_view()),
                None => old(self)@.next_member() is None,
            },
    {
        if self.connections.len() == 0 {
            return None;
        }
        if self.next >= self.connections.len() {
            self.next = 0;
        }
        let conn = self.connections[self.next].clone_box();
        self.next += 1;
        Some(conn)
    }
}

/// A round-robin balancer that manages no connection yet.
pub fn round_robin<C: Endpoint>() -> (balancer: RoundRobin<C>)
    ensures
        balancer@ == Rotation::empty(),
        balancer@.wf(),
{
    let balancer = RoundRobin { connections: Vec::new(), next: 0 };
    assert(balancer@.members =~= Seq::<Seq<char>>::empty());
    balancer
}

/// Address identity in removal: endpoints built from equal parts are one and
/// the same entity to `remove`. Whichever of the two is handed in, the same
/// member leaves, and the same state is left.
pub proof fn lemma_equal_parts_same_removal(
    rotation: Rotation,
    first: NetEndpoint,
    second: NetEndpoint,
)
    requires
        first.net@ == second.net@,
        first.addr@ == second.addr@,
    ensures
        first.address_view() == second.address_view(),
        rotation.after_remove(first.address_view()) == rotation.after_remove(
            second.address_view(),
        ),
        rotation.members.remove_value(first.address_view()) == rotation.members.remove_value(
            second.address_view(),
        ),
{
}

} // verus!
