//! The mathematical model of round-robin selection, and what holds of it.
//!
//! A [`Rotation`] is the state of a round-robin balancer reduced to what
//! matters: the canonical addresses of the members, oldest first, and a cursor.
//! The operations of the balancer are functions on that state. The laws at the
//! end of the file are proved once, of the model, and hold of every balancer
//! whose contracts are stated in it.

use vstd::prelude::*;

verus! {

/// The state of a round-robin balancer: the addresses of its members, oldest
/// first, and a cursor into them.
pub struct Rotation {
    /// The canonical addresses of the managed connections, in the order in
    /// which they were added.
    pub members: Seq<Seq<char>>,
    /// The index at which the next pick looks. At the end of the members it
    /// stands for their start.
    pub cursor: nat,
}

impl Rotation {
    /// The rotation without members.
    pub open spec fn empty() -> Rotation {
        Rotation { members: Seq::empty(), cursor: 0 }
    }

    /// Well-formedness: the cursor does not lie beyond the end of the members.
    /// The empty rotation is well-formed and every operation keeps a rotation
    /// so, which makes every state that a balancer can reach well-formed.
    pub open spec fn wf(self) -> bool {
        self.cursor <= self.members.len()
    }

    /// The index of the member whose turn it is: the cursor, wrapped to the
    /// start when it has reached the end.
    pub open spec fn turn(self) -> int {
        if self.cursor < self.members.len() {
            self.cursor as int
        } else {
            0
        }
    }

    /// The address that the next pick hands out, if there is a member at all.
    pub open spec fn next_member(self) -> Option<Seq<char>> {
        if self.members.len() == 0 {
            None
        } else {
            Some(self.members[self.turn()])
        }
    }

    /// The state after one pick: the members stay, the cursor moves past the
    /// member whose turn it was.
    pub open spec fn after_pick(self) -> Rotation {
        if self.members.len() == 0 {
            self
        } else {
            Rotation { members: self.members, cursor: (self.turn() + 1) as nat }
        }
    }

    /// The state after `address` has been added: it becomes the last member.
    pub open spec fn after_add(self, address: Seq<char>) -> Rotation {
        Rotation { members: self.members.push(address), cursor: self.cursor }
    }

    /// The state after the removal of `address`: its first occurrence among
    /// the members is gone, and a cursor behind it has moved down with the
    /// members that followed it. Without an occurrence nothing changes.
    pub open spec fn after_remove(self, address: Seq<char>) -> Rotation {
        match self.members.index_of_first(address) {
            Some(index) => Rotation {
                members: self.members.remove(index),
                cursor: if index < self.cursor {
                    (self.cursor - 1) as nat
                } else {
                    self.cursor
                },
            },
            None => self,
        }
    }

    /// The state after `count` picks in a row.
    pub open spec fn after_picks(self, count: nat) -> Rotation
        decreases count,
    {
        if count == 0 {
            self
        } else {
            self.after_picks((count - 1) as nat).after_pick()
        }
    }

    /// The address that comes out of pick number `n` of a row of picks, where
    /// the first pick has number 0.
    pub open spec fn nth_pick(self, n: nat) -> Option<Seq<char>> {
        self.after_picks(n).next_member()
    }

    /// The state after `count` picks in a row of a caller that adds every
    /// address back as soon as it has picked it.
    pub open spec fn after_picks_added_back(self, count: nat) -> Rotation
        decreases count,
    {
        if count == 0 {
            self
        } else {
            let before = self.after_picks_added_back((count - 1) as nat);
            match before.next_member() {
                Some(address) => before.after_pick().after_add(address),
                None => before,
            }
        }
    }

    /// The members in the order of their turns: first the member whose turn it
    /// is and those behind it, then those before it.
    pub open spec fn upcoming(self) -> Seq<Seq<char>> {
        self.members.subrange(self.turn(), self.members.len() as int) + self.members.subrange(
            0,
            self.turn(),
        )
    }

    /// Where the member at `index` stands in [`Rotation::upcoming`].
    pub open spec fn place_in_turns(self, index: int) -> int {
        if index >= self.turn() {
            index - self.turn()
        } else {
            index + self.members.len() - self.turn()
        }
    }

    /// The address occurs among the members once at most.
    pub open spec fn at_most_once(self, address: Seq<char>) -> bool {
        forall|first: int, second: int|
            0 <= first < second < self.members.len() ==> !(self.members[first] == address
                && self.members[second] == address)
    }
}

/// The cursor stays in range. The empty rotation is well-formed, and every
/// operation leaves a well-formed rotation as one. In a well-formed rotation
/// with members the turn is the cursor modulo the number of members.
pub proof fn lemma_cursor_stays_in_range(rotation: Rotation, address: Seq<char>)
    requires
        rotation.wf(),
    ensures
        Rotation::empty().wf(),
        rotation.after_add(address).wf(),
        rotation.after_remove(address).wf(),
        rotation.after_pick().wf(),
        rotation.members.len() > 0 ==> rotation.turn() == rotation.cursor % rotation.members.len(),
{
    rotation.members.index_of_first_ensures(address);
    if rotation.members.len() > 0 {
        if rotation.cursor < rotation.members.len() {
            vstd::arithmetic::div_mod::lemma_small_mod(rotation.cursor, rotation.members.len());
        } else {
            vstd::arithmetic::div_mod::lemma_mod_self_0(rotation.members.len() as int);
        }
    }
}

/// A row of picks changes no member, and the turn moves on by one member per
/// pick, from the newest member back to the oldest.
proof fn lemma_turn_after_picks(rotation: Rotation, count: nat)
    requires
        count <= rotation.members.len(),
    ensures
        rotation.after_picks(count).members == rotation.members,
        count < rotation.members.len() ==> rotation.after_picks(count).turn()
            == if rotation.turn() + count < rotation.members.len() {
            rotation.turn() + count
        } else {
            rotation.turn() + count - rotation.members.len()
        },
        0 < count == rotation.members.len() ==> rotation.after_picks(count).turn()
            == rotation.turn(),
    decreases count,
{
    if count > 0 {
        lemma_turn_after_picks(rotation, (count - 1) as nat);
    }
}

/// Round-robin coverage. As many picks in a row as there are members hand out
/// the members in the order of [`Rotation::upcoming`], which holds every member
/// as often as the rotation does: each member gets exactly one turn. After
/// them the same order starts again, with the same members.
pub proof fn lemma_each_member_has_its_turn(rotation: Rotation)
    ensures
        rotation.upcoming().len() == rotation.members.len(),
        rotation.upcoming().to_multiset() == rotation.members.to_multiset(),
        forall|n: nat|
            n < rotation.members.len() ==> #[trigger] rotation.nth_pick(n) == Some(
                rotation.upcoming()[n as int],
            ),
        rotation.after_picks(rotation.members.len()).members == rotation.members,
        rotation.after_picks(rotation.members.len()).upcoming() == rotation.upcoming(),
{
    let members = rotation.members;
    let turn = rotation.turn();
    let size = members.len() as int;
    let behind = members.subrange(turn, size);
    let before = members.subrange(0, turn);
    assert(before + behind =~= members);
    vstd::seq_lib::lemma_seq_union_to_multiset_commutative(behind, before);
    assert forall|n: nat| n < members.len() implies #[trigger] rotation.nth_pick(n) == Some(
        rotation.upcoming()[n as int],
    ) by {
        lemma_turn_after_picks(rotation, n);
    }
    lemma_turn_after_picks(rotation, members.len());
}

/// The order of the turns is stable: a pick hands out what the pick one full
/// round before it handed out.
pub proof fn lemma_the_order_repeats(rotation: Rotation, n: nat)
    ensures
        rotation.after_picks(n + rotation.members.len()).members == rotation.members,
        rotation.after_picks(n).members == rotation.members,
        rotation.after_picks(n + rotation.members.len()).turn() == rotation.after_picks(n).turn(),
        rotation.nth_pick(n + rotation.members.len()) == rotation.nth_pick(n),
    decreases n,
{
    if n == 0 {
        lemma_turn_after_picks(rotation, rotation.members.len());
    } else {
        lemma_the_order_repeats(rotation, (n - 1) as nat);
    }
}

/// No member comes twice in a row while another one waits: with two members
/// or more, two picks in a row take members at different places, and so hand
/// out different addresses where no address is there twice.
pub proof fn lemma_no_member_twice_in_a_row(rotation: Rotation, n: nat)
    requires
        rotation.members.len() >= 2,
    ensures
        rotation.after_picks(n).turn() != rotation.after_picks(n + 1).turn(),
        rotation.members.no_duplicates() ==> rotation.nth_pick(n) != rotation.nth_pick(n + 1),
{
    lemma_the_order_repeats(rotation, n);
}

/// A caller that adds every address back right after it has picked it sees
/// the same order as one that does not, from a rotation in which no pick has
/// been made yet: pick number `n` hands out the member at `n` modulo the
/// number of members that there were at the start.
pub proof fn lemma_adding_back_keeps_the_order(rotation: Rotation, n: nat)
    requires
        rotation.cursor == 0,
        rotation.members.len() > 0,
    ensures
        rotation.after_picks_added_back(n).next_member() == Some(
            rotation.members[(n % rotation.members.len()) as int],
        ),
{
    lemma_members_when_added_back(rotation, n);
}

/// What a rotation holds after `count` picks that were each followed by
/// adding the picked address back.
proof fn lemma_members_when_added_back(rotation: Rotation, count: nat)
    requires
        rotation.cursor == 0,
        rotation.members.len() > 0,
    ensures
        rotation.after_picks_added_back(count).cursor == count,
        rotation.after_picks_added_back(count).members.len() == rotation.members.len() + count,
        forall|index: int|
            0 <= index < rotation.members.len() + count ==> #[trigger] rotation.after_picks_added_back(
                count,
            ).members[index] == rotation.members[index % (rotation.members.len() as int)],
    decreases count,
{
    let size = rotation.members.len() as int;
    if count == 0 {
        assert forall|index: int| 0 <= index < size implies #[trigger] rotation.members[index]
            == rotation.members[index % size] by {
            vstd::arithmetic::div_mod::lemma_small_mod(index as nat, size as nat);
        }
    } else {
        let before = rotation.after_picks_added_back((count - 1) as nat);
        lemma_members_when_added_back(rotation, (count - 1) as nat);
        let reached = rotation.after_picks_added_back(count);
        assert forall|index: int| 0 <= index < size + count implies #[trigger] reached.members[index]
            == rotation.members[index % size] by {
            if index == size + count - 1 {
                vstd::arithmetic::div_mod::lemma_mod_add_multiples_vanish(count - 1, size);
            }
        }
    }
}

/// An address that is not among the members does not come out of a pick, and
/// it stays out of the members until it is added: no pick, no removal and no
/// addition of another address brings it in.
pub proof fn lemma_absent_until_added(rotation: Rotation, address: Seq<char>, other: Seq<char>)
    requires
        !rotation.members.contains(address),
    ensures
        rotation.next_member() != Some(address),
        !rotation.after_pick().members.contains(address),
        !rotation.after_remove(other).members.contains(address),
        other != address ==> !rotation.after_add(other).members.contains(address),
{
    rotation.members.index_of_first_ensures(other);
}

/// Removal correctness. Removing an address that is not among the members
/// changes nothing. Removing one that is there once takes it out of the
/// members, and then no pick of a row of picks hands it out.
pub proof fn lemma_removed_is_not_picked(rotation: Rotation, address: Seq<char>, n: nat)
    requires
        rotation.at_most_once(address),
    ensures
        !rotation.members.contains(address) ==> rotation.after_remove(address) == rotation,
        !rotation.after_remove(address).members.contains(address),
        rotation.after_remove(address).nth_pick(n) != Some(address),
{
    rotation.members.index_of_first_ensures(address);
    lemma_absent_after_picks(rotation.after_remove(address), address, n);
}

/// A row of picks never hands out an address that is not among the members.
proof fn lemma_absent_after_picks(rotation: Rotation, address: Seq<char>, count: nat)
    requires
        !rotation.members.contains(address),
    ensures
        rotation.after_picks(count).members == rotation.members,
        rotation.nth_pick(count) != Some(address),
    decreases count,
{
    if count > 0 {
        lemma_absent_after_picks(rotation, address, (count - 1) as nat);
    }
}

/// Removal keeps the order of the turns. The member that is removed leaves
/// its place in [`Rotation::upcoming`]; every other member keeps its place
/// relative to the others, so none is skipped and none comes twice.
pub proof fn lemma_removal_keeps_the_order(rotation: Rotation, address: Seq<char>)
    ensures
        match rotation.members.index_of_first(address) {
            Some(index) => rotation.after_remove(address).upcoming()
                == rotation.upcoming().remove(rotation.place_in_turns(index)),
            None => rotation.after_remove(address).upcoming() == rotation.upcoming(),
        },
{
    rotation.members.index_of_first_ensures(address);
    if let Some(index) = rotation.members.index_of_first(address) {
        assert(rotation.after_remove(address).upcoming() =~= rotation.upcoming().remove(
            rotation.place_in_turns(index),
        ));
    }
}

} // verus!
