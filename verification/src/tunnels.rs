//! Tunnel teleportation: paired endpoints at opposite board edges.
//!
//! When an agent's tile and facing direction exactly match an endpoint,
//! it is relocated to the partner endpoint sharing the index, and its
//! direction becomes the partner's entry direction reversed. A missing
//! partner is a non-fatal no-op: the agent stays put for this tick.

use vstd::prelude::*;
use crate::common::{spec_opposite, Direction, Position};
use crate::ghosts::{GhostActor, GhostId};

verus! {

/// One tunnel endpoint: the pair index it shares with exactly one
/// partner, its tile, and the direction an agent must face to enter it.
#[derive(Clone, Copy, Debug, PartialEq, Eq, Structural)]
pub struct Tunnel {
    pub index: u32,
    pub position: Position,
    pub direction: Direction,
}

/// Notification that a ghost agent passed a tunnel; the selector clears
/// the agent's now-invalid waypoint, and observers may react to it.
#[derive(Clone, Copy, Debug, PartialEq, Eq, Structural)]
pub struct GhostPassedTunnel {
    pub id: GhostId,
}

/// All tunnel endpoints of a level.
#[derive(Debug)]
pub struct Tunnels {
    pub ends: Vec<Tunnel>,
}

/// The first endpoint at or after `i` whose tile and entry direction
/// match, if any.
pub open spec fn find_end_from(ends: Seq<Tunnel>, pos: Position, dir: Direction, i: int) -> Option<
    int,
>
    decreases ends.len() - i,
{
    if !(0 <= i < ends.len()) {
        None
    } else if ends[i].position == pos && ends[i].direction == dir {
        Some(i)
    } else {
        find_end_from(ends, pos, dir, i + 1)
    }
}

/// The first endpoint at or after `j`, other than `skip`, that carries
/// the pair index `index`, if any.
pub open spec fn find_partner_from(ends: Seq<Tunnel>, index: u32, skip: int, j: int) -> Option<int>
    decreases ends.len() - j,
{
    if !(0 <= j < ends.len()) {
        None
    } else if j != skip && ends[j].index == index {
        Some(j)
    } else {
        find_partner_from(ends, index, skip, j + 1)
    }
}

/// True when some endpoint other than `i` carries the index of
/// endpoint `i`.
pub open spec fn has_partner(ends: Seq<Tunnel>, i: int) -> bool {
    exists|j: int|
        0 <= j < ends.len() && j != i && (#[trigger] ends[j].index) == ends[i].index
}

/// The result of a traversal attempt at tile `pos` facing `dir`: the
/// partner endpoint's tile and its entry direction reversed, or nothing
/// when no endpoint matches or the matched endpoint has no partner.
pub open spec fn spec_traverse(t: Tunnels, pos: Position, dir: Direction) -> Option<
    (Position, Direction),
> {
    match find_end_from(t.ends@, pos, dir, 0) {
        Option::None => None,
        Option::Some(i) => match find_partner_from(t.ends@, t.ends@[i].index, i, 0) {
            Option::None => None,
            Option::Some(j) => Some(
                (t.ends@[j].position, spec_opposite(t.ends@[j].direction)),
            ),
        },
    }
}

impl Tunnels {
    /// Builds the tunnel set from the level's endpoints.
    pub fn new(ends: Vec<Tunnel>) -> (r: Tunnels)
        ensures
            r.ends@ == ends@,
    {
        Tunnels { ends }
    }

    /// Well-formedness of the level's tunnel data: endpoint tiles are
    /// pairwise distinct, and every endpoint has exactly one partner
    /// sharing its index.
    pub open spec fn wf(self) -> bool {
        &&& forall|i: int, j: int|
            0 <= i < self.ends@.len() && 0 <= j < self.ends@.len() && i != j ==> (
            #[trigger] self.ends@[i].position) != (#[trigger] self.ends@[j].position)
        &&& forall|i: int| 0 <= i < self.ends@.len() ==> #[trigger] has_partner(self.ends@, i)
        &&& forall|i: int, j: int, k: int|
            0 <= i < self.ends@.len() && 0 <= j < self.ends@.len() && 0 <= k < self.ends@.len()
                && i != j && i != k && j != k ==> !((#[trigger] self.ends@[i].index) == (
            #[trigger] self.ends@[j].index) && self.ends@[i].index == (
            #[trigger] self.ends@[k].index))
    }

    /// Attempts a traversal at tile `pos` facing `dir`; returns the new
    /// tile and facing, or nothing when no endpoint matches there or the
    /// endpoint's partner is missing.
    pub fn traverse(&self, pos: &Position, dir: Direction) -> (r: Option<(Position, Direction)>)
        ensures
            r == spec_traverse(*self, *pos, dir),
    {
        let entry = self.find_end(pos, dir);
        match entry {
            Option::None => None,
            Option::Some(i) => {
                let index = self.ends[i].index;
                let partner = self.find_partner(index, i);
                match partner {
                    Option::None => None,
                    Option::Some(j) => {
                        let out = self.ends[j];
                        Some((out.position, out.direction.opposite()))
                    },
                }
            },
        }
    }

    fn find_end(&self, pos: &Position, dir: Direction) -> (r: Option<usize>)
        ensures
            match r {
                Option::Some(i) => find_end_from(self.ends@, *pos, dir, 0) == Some(i as int)
                    && i < self.ends@.len(),
                Option::None => find_end_from(self.ends@, *pos, dir, 0) is None,
            },
    {
        let mut k: usize = 0;
        while k < self.ends.len()
            invariant
                0 <= k <= self.ends@.len(),
                find_end_from(self.ends@, *pos, dir, 0) == find_end_from(
                    self.ends@,
                    *pos,
                    dir,
                    k as int,
                ),
            decreases self.ends@.len() - k,
        {
            if self.ends[k].position == *pos && self.ends[k].direction == dir {
                return Some(k);
            }
            k = k + 1;
        }
        None
    }

    fn find_partner(&self, index: u32, skip: usize) -> (r: Option<usize>)
        ensures
            match r {
                Option::Some(j) => find_partner_from(self.ends@, index, skip as int, 0) == Some(
                    j as int,
                ) && j < self.ends@.len(),
                Option::None => find_partner_from(self.ends@, index, skip as int, 0) is None,
            },
    {
        let mut k: usize = 0;
        while k < self.ends.len()
            invariant
                0 <= k <= self.ends@.len(),
                find_partner_from(self.ends@, index, skip as int, 0) == find_partner_from(
                    self.ends@,
                    index,
                    skip as int,
                    k as int,
                ),
            decreases self.ends@.len() - k,
        {
            if k != skip && self.ends[k].index == index {
                return Some(k);
            }
            k = k + 1;
        }
        None
    }
}

/// What a found endpoint satisfies: it is in range at or after `t`, and
/// its tile and entry direction match.
proof fn lemma_find_end_props(ends: Seq<Tunnel>, pos: Position, dir: Direction, t: int)
    requires
        find_end_from(ends, pos, dir, t) is Some,
    ensures
        ({
            let i = find_end_from(ends, pos, dir, t)->Some_0;
            &&& t <= i < ends.len()
            &&& ends[i].position == pos
            &&& ends[i].direction == dir
        }),
    decreases ends.len() - t,
{
    if 0 <= t < ends.len() {
        if !(ends[t].position == pos && ends[t].direction == dir) {
            lemma_find_end_props(ends, pos, dir, t + 1);
        }
    }
}

/// When endpoint tiles are pairwise distinct, the search finds exactly
/// the endpoint that matches.
proof fn lemma_find_end_hits(ends: Seq<Tunnel>, pos: Position, dir: Direction, t: int, j: int)
    requires
        forall|a: int, b: int|
            0 <= a < ends.len() && 0 <= b < ends.len() && a != b ==> (#[trigger] ends[a].position)
                != (#[trigger] ends[b].position),
        0 <= t <= j < ends.len(),
        ends[j].position == pos,
        ends[j].direction == dir,
    ensures
        find_end_from(ends, pos, dir, t) == Some(j),
    decreases j - t,
{
    if t < j {
        assert(ends[t].position != ends[j].position);
        lemma_find_end_hits(ends, pos, dir, t + 1, j);
    }
}

/// What a found partner satisfies: it is in range at or after `t`, is
/// not the skipped endpoint, and carries the index.
proof fn lemma_find_partner_props(ends: Seq<Tunnel>, index: u32, skip: int, t: int)
    requires
        find_partner_from(ends, index, skip, t) is Some,
    ensures
        ({
            let j = find_partner_from(ends, index, skip, t)->Some_0;
            &&& t <= j < ends.len()
            &&& j != skip
            &&& ends[j].index == index
        }),
    decreases ends.len() - t,
{
    if 0 <= t < ends.len() {
        if !(t != skip && ends[t].index == index) {
            lemma_find_partner_props(ends, index, skip, t + 1);
        }
    }
}

/// When nothing before `j` (other than the skipped endpoint) carries the
/// index, the partner search finds exactly `j`.
proof fn lemma_find_partner_hits(ends: Seq<Tunnel>, index: u32, skip: int, t: int, j: int)
    requires
        0 <= t <= j < ends.len(),
        j != skip,
        ends[j].index == index,
        forall|k: int|
            t <= k < j && k != skip ==> (#[trigger] ends[k].index) != index,
    ensures
        find_partner_from(ends, index, skip, t) == Some(j),
    decreases j - t,
{
    if t < j {
        lemma_find_partner_hits(ends, index, skip, t + 1, j);
    }
}

/// Tunnel traversal is self-inverse: an agent that entered at one
/// endpoint and came out at its partner, turned around, and entered the
/// partner again, is back on the first endpoint's tile, facing the
/// reverse of its original entry direction — so its original facing is
/// recovered by the same reversal it just performed.
pub proof fn lemma_tunnel_round_trip(t: Tunnels, pos: Position, dir: Direction)
    requires
        t.wf(),
        spec_traverse(t, pos, dir) is Some,
    ensures
        ({
            let out = spec_traverse(t, pos, dir)->Some_0;
            spec_traverse(t, out.0, spec_opposite(out.1)) == Some((pos, spec_opposite(dir)))
        }),
{
    let ends = t.ends@;
    let i = find_end_from(ends, pos, dir, 0)->Some_0;
    lemma_find_end_props(ends, pos, dir, 0);
    let index = ends[i].index;
    let j = find_partner_from(ends, index, i, 0)->Some_0;
    lemma_find_partner_props(ends, index, i, 0);
    let out = spec_traverse(t, pos, dir)->Some_0;
    assert(out == (ends[j].position, spec_opposite(ends[j].direction)));

    // Re-entering the partner: its tile is unique, so the search finds it.
    assert(spec_opposite(spec_opposite(ends[j].direction)) == ends[j].direction);
    lemma_find_end_hits(ends, ends[j].position, ends[j].direction, 0, j);

    // The partner search from the partner finds the first endpoint: no
    // third endpoint shares the index.
    assert forall|k: int| 0 <= k < i && k != j implies (#[trigger] ends[k].index) != index by {
        if ends[k].index == index {
            assert(ends[i].index == index && ends[j].index == index);
        }
    }
    lemma_find_partner_hits(ends, index, j, 0, i);
}

/// Moves a ghost agent through a tunnel when its tile and facing match
/// an endpoint with a partner: the agent is relocated, its direction
/// reversed relative to the partner's entry, and its stale waypoint
/// cleared. Returns the passed-tunnel notification, or nothing when no
/// traversal happened.
pub fn pass_tunnel_ghost(actor: &mut GhostActor, tunnels: &Tunnels) -> (r: Option<
    GhostPassedTunnel,
>)
    ensures
        match spec_traverse(*tunnels, old(actor).position, old(actor).direction) {
            Option::Some(out) => {
                &&& final(actor).position == out.0
                &&& final(actor).direction == out.1
                &&& !final(actor).target.spec_is_set()
                &&& final(actor).id == old(actor).id
                &&& final(actor).state == old(actor).state
                &&& r == Some(GhostPassedTunnel { id: old(actor).id })
            },
            Option::None => *final(actor) == *old(actor) && r is None,
        },
{
    let moved = tunnels.traverse(&actor.position, actor.direction);
    match moved {
        Option::Some((p, d)) => {
            actor.position = p;
            actor.direction = d;
            actor.target.clear();
            Some(GhostPassedTunnel { id: actor.id })
        },
        Option::None => None,
    }
}

/// Moves the player-controlled agent through a tunnel in the same way;
/// no notification is emitted. Returns whether a traversal happened.
pub fn pass_tunnel_pacman(pos: &mut Position, dir: &mut Direction, tunnels: &Tunnels) -> (r: bool)
    ensures
        match spec_traverse(*tunnels, *old(pos), *old(dir)) {
            Option::Some(out) => *final(pos) == out.0 && *final(dir) == out.1 && r,
            Option::None => *final(pos) == *old(pos) && *final(dir) == *old(dir) && !r,
        },
{
    let moved = tunnels.traverse(pos, *dir);
    match moved {
        Option::Some((p, d)) => {
            *pos = p;
            *dir = d;
            true
        },
        Option::None => false,
    }
}

} // verus!
