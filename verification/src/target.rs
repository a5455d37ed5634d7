//! The steering target of an agent and the per-mode target selection.
//!
//! Selection skips agents whose target is already set; a mode flip or a
//! tunnel traversal clears it. Per mode:
//! - `Scatter` targets the identity's fixed corner tile;
//! - `Chase` targets a tile derived from the pursued entity (see
//!   [`spec_chase_target`] for the concrete per-identity rules);
//! - `Frightened` picks pseudo-randomly among the open neighbouring
//!   tiles, the reverse of the current direction excluded;
//! - `Eaten` walks back to the house in four geometric phases.

use vstd::prelude::*;
use crate::board::Board;
use crate::common::{
    dist_ok, in_bounds, spec_dist_sq, spec_neighbour, spec_opposite, Direction, Position,
};
use crate::ghost_house::GhostHouse;
use crate::ghosts::{GhostActor, GhostId};
use crate::state::State;

verus! {

/// An optional waypoint with an explicit set/unset flag. Unset means
/// "recompute this tick": a mode flip or a tunnel traversal clears it.
#[derive(Clone, Copy, Debug, PartialEq)]
pub struct Target {
    pub inner: Option<Position>,
}

impl Target {
    /// True when a waypoint is set.
    pub open spec fn spec_is_set(self) -> bool {
        self.inner is Some
    }

    /// The waypoint held; meaningful only when set.
    pub open spec fn spec_pos(self) -> Position
        recommends
            self.spec_is_set(),
    {
        self.inner->Some_0
    }

    /// A fresh, unset target.
    pub fn new_unset() -> (r: Target)
        ensures
            !r.spec_is_set(),
    {
        Target { inner: None }
    }

    /// Returns whether a waypoint is set.
    pub fn is_set(&self) -> (r: bool)
        ensures
            r == self.spec_is_set(),
    {
        self.inner.is_some()
    }

    /// Returns the waypoint.
    pub fn get(&self) -> (r: Position)
        requires
            self.spec_is_set(),
        ensures
            r == self.spec_pos(),
    {
        self.inner.unwrap()
    }

    /// Sets the waypoint to `p`.
    pub fn set(&mut self, p: Position)
        ensures
            final(self).spec_is_set(),
            final(self).spec_pos() == p,
    {
        self.inner = Some(p);
    }

    /// Clears the waypoint.
    pub fn clear(&mut self)
        ensures
            !final(self).spec_is_set(),
    {
        self.inner = None;
    }
}

/// The fixed per-identity scatter corner tiles of a level.
#[derive(Clone, Copy, Debug, PartialEq, Eq, Structural)]
pub struct ScatterCorners {
    pub blinky: Position,
    pub pinky: Position,
    pub inky: Position,
    pub clyde: Position,
}

impl ScatterCorners {
    /// The scatter corner of identity `g`.
    pub open spec fn spec_corner_of(self, g: GhostId) -> Position {
        match g {
            GhostId::Blinky => self.blinky,
            GhostId::Pinky => self.pinky,
            GhostId::Inky => self.inky,
            GhostId::Clyde => self.clyde,
        }
    }

    /// Returns the scatter corner of identity `g`.
    pub fn corner_of(&self, g: GhostId) -> (r: Position)
        ensures
            r == self.spec_corner_of(g),
    {
        match g {
            GhostId::Blinky => self.blinky,
            GhostId::Pinky => self.pinky,
            GhostId::Inky => self.inky,
            GhostId::Clyde => self.clyde,
        }
    }
}

/// The tile `k` steps from `p` in direction `d`.
pub open spec fn spec_ahead(p: Position, d: Direction, k: nat) -> Position
    decreases k,
{
    if k == 0 {
        p
    } else {
        spec_neighbour(spec_ahead(p, d, (k - 1) as nat), d)
    }
}

/// The chase target of identity `g`. The concrete per-identity rules:
///
/// - the lead identity targets the pursued entity's current tile;
/// - the second identity ambushes four tiles ahead of the pursued entity,
///   in the direction it faces;
/// - the third identity doubles, from the lead identity's tile, the
///   vector to the tile two ahead of the pursued entity;
/// - the fourth identity targets the pursued entity while more than eight
///   tiles away (squared distance over 64) and its own scatter corner
///   otherwise.
pub open spec fn spec_chase_target(
    g: GhostId,
    own: Position,
    own_corner: Position,
    pacman_pos: Position,
    pacman_dir: Direction,
    blinky_pos: Position,
) -> Position {
    match g {
        GhostId::Blinky => pacman_pos,
        GhostId::Pinky => spec_ahead(pacman_pos, pacman_dir, 4),
        GhostId::Inky => {
            let mid = spec_ahead(pacman_pos, pacman_dir, 2);
            Position {
                x: (2 * mid.x - blinky_pos.x) as i64,
                y: (2 * mid.y - blinky_pos.y) as i64,
            }
        },
        GhostId::Clyde => if spec_dist_sq(own, pacman_pos) > 64 {
            pacman_pos
        } else {
            own_corner
        },
    }
}

/// Returns the chase target of identity `g`; see [`spec_chase_target`]
/// for the per-identity rules.
pub fn chase_target(
    g: GhostId,
    own: &Position,
    own_corner: &Position,
    pacman_pos: &Position,
    pacman_dir: Direction,
    blinky_pos: &Position,
) -> (r: Position)
    requires
        in_bounds(*own),
        in_bounds(*pacman_pos),
        in_bounds(*blinky_pos),
    ensures
        r == spec_chase_target(g, *own, *own_corner, *pacman_pos, pacman_dir, *blinky_pos),
{
    proof {
        reveal_with_fuel(spec_ahead, 6);
    }
    match g {
        GhostId::Blinky => *pacman_pos,
        GhostId::Pinky => {
            pacman_pos
                .neighbour_in_direction(pacman_dir)
                .neighbour_in_direction(pacman_dir)
                .neighbour_in_direction(pacman_dir)
                .neighbour_in_direction(pacman_dir)
        },
        GhostId::Inky => {
            let mid = pacman_pos.neighbour_in_direction(pacman_dir).neighbour_in_direction(
                pacman_dir,
            );
            proof {
                assert(-1_000_002 <= mid.x <= 1_000_002);
                assert(-1_000_002 <= mid.y <= 1_000_002);
            }
            Position { x: 2 * mid.x - blinky_pos.x, y: 2 * mid.y - blinky_pos.y }
        },
        GhostId::Clyde => {
            if own.dist_sq(pacman_pos) > 64 {
                *pacman_pos
            } else {
                *own_corner
            }
        },
    }
}

/// True when direction `d` is not the excluded reverse direction and the
/// neighbouring tile of `pos` in direction `d` is open (not a wall).
pub open spec fn open_non_reverse(board: Board, pos: Position, rev: Direction, d: Direction) -> bool {
    &&& d != rev
    &&& !board.spec_is_wall(spec_neighbour(pos, d))
}

/// The open, non-reverse candidate directions at `pos`, in the fixed
/// order up, down, left, right.
pub open spec fn spec_open_dirs(board: Board, pos: Position, rev: Direction) -> Seq<Direction> {
    (if open_non_reverse(board, pos, rev, Direction::Up) {
        seq![Direction::Up]
    } else {
        seq![]
    }) + (if open_non_reverse(board, pos, rev, Direction::Down) {
        seq![Direction::Down]
    } else {
        seq![]
    }) + (if open_non_reverse(board, pos, rev, Direction::Left) {
        seq![Direction::Left]
    } else {
        seq![]
    }) + (if open_non_reverse(board, pos, rev, Direction::Right) {
        seq![Direction::Right]
    } else {
        seq![]
    })
}

fn dir_is_open_non_reverse(board: &Board, pos: &Position, rev: Direction, d: Direction) -> (r:
    bool)
    ensures
        r == open_non_reverse(*board, *pos, rev, d),
{
    d != rev && !board.position_is_wall(&pos.neighbour_in_direction(d))
}

/// Returns the open, non-reverse candidate directions at `pos`, in the
/// fixed order up, down, left, right.
fn open_dirs(board: &Board, pos: &Position, rev: Direction) -> (v: Vec<Direction>)
    ensures
        v@ == spec_open_dirs(*board, *pos, rev),
{
    let mut v: Vec<Direction> = Vec::new();
    if dir_is_open_non_reverse(board, pos, rev, Direction::Up) {
        v.push(Direction::Up);
    }
    if dir_is_open_non_reverse(board, pos, rev, Direction::Down) {
        v.push(Direction::Down);
    }
    if dir_is_open_non_reverse(board, pos, rev, Direction::Left) {
        v.push(Direction::Left);
    }
    if dir_is_open_non_reverse(board, pos, rev, Direction::Right) {
        v.push(Direction::Right);
    }
    proof {
        assert(v@ =~= spec_open_dirs(*board, *pos, rev));
    }
    v
}

/// The frightened step: among the open neighbouring tiles, the reverse of
/// the current direction excluded, one is chosen pseudo-randomly by the
/// draw `rand`; the agent turns toward it and targets it. If none is open
/// (a dead end), the reverse direction is allowed instead.
pub open spec fn spec_frightened_step(a: GhostActor, board: Board, rand: u64) -> GhostActor {
    let rev = spec_opposite(a.direction);
    let cands = spec_open_dirs(board, a.position, rev);
    if cands.len() > 0 {
        let d = cands[rand as int % cands.len() as int];
        GhostActor {
            direction: d,
            target: Target { inner: Some(spec_neighbour(a.position, d)) },
            ..a
        }
    } else {
        GhostActor {
            direction: rev,
            target: Target { inner: Some(spec_neighbour(a.position, rev)) },
            ..a
        }
    }
}

/// Sets the frightened agent's direction and target: a pseudo-random
/// open neighbour, the tile behind only in a dead end. `rand` is the
/// random draw for this tick; the choice is verified for every value.
pub fn set_frightened_target(actor: &mut GhostActor, board: &Board, rand: u64)
    ensures
        *final(actor) == spec_frightened_step(*old(actor), *board, rand),
{
    let rev = actor.direction.opposite();
    let cands = open_dirs(board, &actor.position, rev);
    if cands.len() > 0 {
        let idx: usize = (rand % (cands.len() as u64)) as usize;
        let d = cands[idx];
        actor.direction = d;
        actor.target.set(actor.position.neighbour_in_direction(d));
    } else {
        actor.direction = rev;
        actor.target.set(actor.position.neighbour_in_direction(rev));
    }
}

/// The nearest of the first `n` tiles to `from` by squared Euclidean
/// distance; on ties the earlier tile wins.
pub open spec fn nearest_upto(tiles: Seq<Position>, from: Position, n: int) -> Position
    recommends
        1 <= n <= tiles.len(),
    decreases n,
{
    if n <= 1 {
        tiles[0]
    } else {
        let prev = nearest_upto(tiles, from, n - 1);
        if spec_dist_sq(tiles[n - 1], from) < spec_dist_sq(prev, from) {
            tiles[n - 1]
        } else {
            prev
        }
    }
}

/// The tile in front of the entrance nearest to `from`.
pub open spec fn spec_nearest_front(house: GhostHouse, from: Position) -> Position {
    nearest_upto(house.front@, from, house.front@.len() as int)
}

/// The nearest tile is one of the tiles considered.
pub proof fn lemma_nearest_upto_member(tiles: Seq<Position>, from: Position, n: int)
    requires
        1 <= n <= tiles.len(),
    ensures
        exists|i: int| 0 <= i < n && nearest_upto(tiles, from, n) == tiles[i],
    decreases n,
{
    if n > 1 {
        lemma_nearest_upto_member(tiles, from, n - 1);
        if spec_dist_sq(tiles[n - 1], from) < spec_dist_sq(nearest_upto(tiles, from, n - 1), from) {
            assert(nearest_upto(tiles, from, n) == tiles[n - 1]);
        }
    } else {
        assert(nearest_upto(tiles, from, n) == tiles[0]);
    }
}

/// Returns the tile in front of the entrance nearest to `from`.
fn nearest_front_tile(house: &GhostHouse, from: &Position) -> (r: Position)
    requires
        house.wf(),
        dist_ok(*from),
    ensures
        r == spec_nearest_front(*house, *from),
        in_bounds(r),
{
    let mut best: Position = house.front[0];
    let mut i: usize = 1;
    while i < house.front.len()
        invariant
            house.wf(),
            dist_ok(*from),
            1 <= i <= house.front@.len(),
            best == nearest_upto(house.front@, *from, i as int),
            in_bounds(best),
        decreases house.front@.len() - i,
    {
        let cand = house.front[i];
        if cand.dist_sq(from) < best.dist_sq(from) {
            best = cand;
        }
        i = i + 1;
    }
    best
}

/// Of the first `n` candidate directions, the one whose neighbouring
/// tile of `pos` lies nearest to `goal`; on ties the earlier wins.
pub open spec fn best_dir_upto(cands: Seq<Direction>, pos: Position, goal: Position, n: int) -> Direction
    recommends
        1 <= n <= cands.len(),
    decreases n,
{
    if n <= 1 {
        cands[0]
    } else {
        let prev = best_dir_upto(cands, pos, goal, n - 1);
        if spec_dist_sq(spec_neighbour(pos, cands[n - 1]), goal) < spec_dist_sq(
            spec_neighbour(pos, prev),
            goal,
        ) {
            cands[n - 1]
        } else {
            prev
        }
    }
}

/// The best direction is one of the candidates considered.
pub proof fn lemma_best_dir_upto_member(cands: Seq<Direction>, pos: Position, goal: Position, n: int)
    requires
        1 <= n <= cands.len(),
    ensures
        exists|i: int| 0 <= i < n && best_dir_upto(cands, pos, goal, n) == cands[i],
    decreases n,
{
    if n > 1 {
        lemma_best_dir_upto_member(cands, pos, goal, n - 1);
        let prev = best_dir_upto(cands, pos, goal, n - 1);
        if spec_dist_sq(spec_neighbour(pos, cands[n - 1]), goal) < spec_dist_sq(
            spec_neighbour(pos, prev),
            goal,
        ) {
            assert(best_dir_upto(cands, pos, goal, n) == cands[n - 1]);
        }
    } else {
        assert(best_dir_upto(cands, pos, goal, n) == cands[0]);
    }
}

/// Returns the candidate direction whose neighbouring tile of `pos` lies
/// nearest to `goal`.
fn best_dir_toward(cands: &Vec<Direction>, pos: &Position, goal: &Position) -> (r: Direction)
    requires
        cands@.len() >= 1,
        in_bounds(*pos),
        dist_ok(*goal),
    ensures
        r == best_dir_upto(cands@, *pos, *goal, cands@.len() as int),
{
    let mut best: Direction = cands[0];
    let mut i: usize = 1;
    while i < cands.len()
        invariant
            cands@.len() >= 1,
            in_bounds(*pos),
            dist_ok(*goal),
            1 <= i <= cands@.len(),
            best == best_dir_upto(cands@, *pos, *goal, i as int),
        decreases cands@.len() - i,
    {
        let d = cands[i];
        proof {
            crate::common::lemma_neighbour_in_range(*pos, d);
            crate::common::lemma_neighbour_in_range(*pos, best);
        }
        let nd = pos.neighbour_in_direction(d);
        let nb = pos.neighbour_in_direction(best);
        if nd.dist_sq(goal) < nb.dist_sq(goal) {
            best = d;
        }
        i = i + 1;
    }
    best
}

/// The direction from `cur` toward `dest` along the axis orthogonal to
/// the entrance orientation: for an up/down entrance the horizontal
/// direction, otherwise the vertical one.
pub open spec fn dir_on_axis(entrance_dir: Direction, dest: Position, cur: Position) -> Direction {
    match entrance_dir {
        Direction::Up | Direction::Down => if dest.x < cur.x {
            Direction::Left
        } else {
            Direction::Right
        },
        Direction::Left | Direction::Right => if dest.y < cur.y {
            Direction::Down
        } else {
            Direction::Up
        },
    }
}

fn exec_dir_on_axis(entrance_dir: Direction, dest: &Position, cur: &Position) -> (r: Direction)
    ensures
        r == dir_on_axis(entrance_dir, *dest, *cur),
{
    match entrance_dir {
        Direction::Up | Direction::Down => if dest.x < cur.x {
            Direction::Left
        } else {
            Direction::Right
        },
        Direction::Left | Direction::Right => if dest.y < cur.y {
            Direction::Down
        } else {
            Direction::Up
        },
    }
}

/// The eaten step, a four-phase geometric rule; the first matching phase
/// wins:
///
/// 1. exactly at the in-front-of-entrance coordinate: face the reverse of
///    the entrance direction and target the house center;
/// 2. standing on one of the tiles in front of the entrance: face the
///    in-front coordinate along the axis orthogonal to the entrance
///    orientation and target that coordinate;
/// 3. exactly at the house center: face the identity's respawn coordinate
///    along the same axis and target it;
/// 4. anywhere else: of the open neighbouring tiles, the reverse of the
///    current direction excluded, take the one nearest to the nearest
///    in-front tile; in a dead end fall back to the tile directly behind.
pub open spec fn spec_eaten_step(a: GhostActor, house: GhostHouse, board: Board) -> GhostActor {
    if a.position == house.front_center {
        GhostActor {
            direction: spec_opposite(house.entrance_direction),
            target: Target { inner: Some(house.center) },
            ..a
        }
    } else if house.front@.contains(a.position) {
        GhostActor {
            direction: dir_on_axis(house.entrance_direction, house.front_center, a.position),
            target: Target { inner: Some(house.front_center) },
            ..a
        }
    } else if a.position == house.center {
        GhostActor {
            direction: dir_on_axis(
                house.entrance_direction,
                house.spec_respawn_of(a.id),
                house.center,
            ),
            target: Target { inner: Some(house.spec_respawn_of(a.id)) },
            ..a
        }
    } else {
        let goal = spec_nearest_front(house, a.position);
        let rev = spec_opposite(a.direction);
        let cands = spec_open_dirs(board, a.position, rev);
        if cands.len() > 0 {
            let d = best_dir_upto(cands, a.position, goal, cands.len() as int);
            GhostActor {
                direction: d,
                target: Target { inner: Some(spec_neighbour(a.position, d)) },
                ..a
            }
        } else {
            GhostActor {
                direction: rev,
                target: Target { inner: Some(spec_neighbour(a.position, rev)) },
                ..a
            }
        }
    }
}

/// Sets the eaten agent's direction and target by the four-phase rule of
/// [`spec_eaten_step`].
pub fn set_eaten_target(actor: &mut GhostActor, house: &GhostHouse, board: &Board)
    requires
        old(actor).wf(),
        house.wf(),
    ensures
        *final(actor) == spec_eaten_step(*old(actor), *house, *board),
{
    if actor.position == house.coordinates_in_front_of_entrance() {
        actor.direction = house.entrance_direction.opposite();
        actor.target.set(house.center_coordinates());
    } else if position_in_front_of_entrance(house, &actor.position) {
        let front_center = house.coordinates_in_front_of_entrance();
        actor.direction = exec_dir_on_axis(house.entrance_direction, &front_center, &actor.position);
        actor.target.set(front_center);
    } else if actor.position == house.center_coordinates() {
        let respawn = house.respawn_coordinates_of(actor.id);
        actor.direction = exec_dir_on_axis(house.entrance_direction, &respawn, &house.center);
        actor.target.set(respawn);
    } else {
        let goal = nearest_front_tile(house, &actor.position);
        let rev = actor.direction.opposite();
        let cands = open_dirs(board, &actor.position, rev);
        if cands.len() > 0 {
            let d = best_dir_toward(&cands, &actor.position, &goal);
            actor.direction = d;
            actor.target.set(actor.position.neighbour_in_direction(d));
        } else {
            actor.direction = rev;
            actor.target.set(actor.position.neighbour_in_direction(rev));
        }
    }
}

/// The per-tick target selection of one agent. An agent whose target is
/// already set is left alone; so is a `Spawned` agent, whose movement
/// inside the house is the integrator's. Otherwise the mode's rule
/// applies: the scatter corner, the chase rule, the pseudo-random
/// frightened step or the four-phase eaten step.
pub open spec fn spec_select_target(
    a: GhostActor,
    board: Board,
    house: GhostHouse,
    corners: ScatterCorners,
    pacman_pos: Position,
    pacman_dir: Direction,
    blinky_pos: Position,
    rand: u64,
) -> GhostActor {
    if a.target.spec_is_set() {
        a
    } else {
        match a.state {
            State::Scatter => GhostActor {
                target: Target { inner: Some(corners.spec_corner_of(a.id)) },
                ..a
            },
            State::Chase => GhostActor {
                target: Target {
                    inner: Some(
                        spec_chase_target(
                            a.id,
                            a.position,
                            corners.spec_corner_of(a.id),
                            pacman_pos,
                            pacman_dir,
                            blinky_pos,
                        ),
                    ),
                },
                ..a
            },
            State::Frightened => spec_frightened_step(a, board, rand),
            State::Eaten => spec_eaten_step(a, house, board),
            State::Spawned => a,
        }
    }
}

/// Computes or refreshes the agent's waypoint for this tick. Skips
/// agents whose target is still set. `pacman_pos` and `pacman_dir` are
/// the pursued entity's tile and facing, `blinky_pos` the lead ghost's
/// tile, and `rand` the pseudo-random draw for the frightened rule.
pub fn select_target(
    actor: &mut GhostActor,
    board: &Board,
    house: &GhostHouse,
    corners: &ScatterCorners,
    pacman_pos: Position,
    pacman_dir: Direction,
    blinky_pos: Position,
    rand: u64,
)
    requires
        old(actor).wf(),
        house.wf(),
        in_bounds(pacman_pos),
        in_bounds(blinky_pos),
    ensures
        *final(actor) == spec_select_target(
            *old(actor),
            *board,
            *house,
            *corners,
            pacman_pos,
            pacman_dir,
            blinky_pos,
            rand,
        ),
{
    if actor.target.is_set() {
        return;
    }
    match actor.state {
        State::Scatter => {
            let corner = corners.corner_of(actor.id);
            actor.target.set(corner);
        },
        State::Chase => {
            let corner = corners.corner_of(actor.id);
            let t = chase_target(
                actor.id,
                &actor.position,
                &corner,
                &pacman_pos,
                pacman_dir,
                &blinky_pos,
            );
            actor.target.set(t);
        },
        State::Frightened => {
            set_frightened_target(actor, board, rand);
        },
        State::Eaten => {
            set_eaten_target(actor, house, board);
        },
        State::Spawned => {},
    }
}

/// Every direction in the candidate list is open and not the excluded
/// reverse direction.
pub proof fn lemma_open_dirs_sound(board: Board, pos: Position, rev: Direction, i: int)
    requires
        0 <= i < spec_open_dirs(board, pos, rev).len(),
    ensures
        open_non_reverse(board, pos, rev, spec_open_dirs(board, pos, rev)[i]),
{
}

/// When any open non-reverse neighbour exists, the frightened step turns
/// the agent to an open, non-reverse direction and targets that
/// neighbouring tile — whatever the random draw.
pub proof fn lemma_frightened_step_stays_open(a: GhostActor, board: Board, rand: u64)
    requires
        spec_open_dirs(board, a.position, spec_opposite(a.direction)).len() > 0,
    ensures
        ({
            let r = spec_frightened_step(a, board, rand);
            &&& open_non_reverse(board, a.position, spec_opposite(a.direction), r.direction)
            &&& r.target.spec_is_set()
            &&& r.target.spec_pos() == spec_neighbour(a.position, r.direction)
        }),
{
    let rev = spec_opposite(a.direction);
    let cands = spec_open_dirs(board, a.position, rev);
    let i = rand as int % cands.len() as int;
    lemma_open_dirs_sound(board, a.position, rev, i);
}

/// Away from the house landmarks, when any open non-reverse neighbour
/// exists, the eaten step turns the agent to an open, non-reverse
/// direction and targets that neighbouring tile: the house-return walk
/// reverses only in dead ends.
pub proof fn lemma_eaten_step_stays_open(a: GhostActor, house: GhostHouse, board: Board)
    requires
        a.position != house.front_center,
        !house.front@.contains(a.position),
        a.position != house.center,
        spec_open_dirs(board, a.position, spec_opposite(a.direction)).len() > 0,
    ensures
        ({
            let r = spec_eaten_step(a, house, board);
            &&& open_non_reverse(board, a.position, spec_opposite(a.direction), r.direction)
            &&& r.target.spec_is_set()
            &&& r.target.spec_pos() == spec_neighbour(a.position, r.direction)
        }),
{
    let rev = spec_opposite(a.direction);
    let goal = spec_nearest_front(house, a.position);
    let cands = spec_open_dirs(board, a.position, rev);
    lemma_best_dir_upto_member(cands, a.position, goal, cands.len() as int);
    let i = choose|i: int|
        0 <= i < cands.len() && best_dir_upto(cands, a.position, goal, cands.len() as int)
            == cands[i];
    lemma_open_dirs_sound(board, a.position, rev, i);
}

/// The target pass never moves an agent and never changes its identity
/// or mode: selection writes only the direction and target fields.
pub proof fn lemma_selection_keeps_place(
    a: GhostActor,
    board: Board,
    house: GhostHouse,
    corners: ScatterCorners,
    pacman_pos: Position,
    pacman_dir: Direction,
    blinky_pos: Position,
    rand: u64,
)
    ensures
        ({
            let r = spec_select_target(
                a,
                board,
                house,
                corners,
                pacman_pos,
                pacman_dir,
                blinky_pos,
                rand,
            );
            &&& r.position == a.position
            &&& r.id == a.id
            &&& r.state == a.state
        }),
{
}

/// From the tiles in front of the entrance, the eaten navigation
/// converges: each application of the eaten step, followed by a move to
/// the tile it targets, brings the agent to the in-front-of-entrance
/// coordinate, then to the house center, and then to the identity's
/// respawn tile — at most three steps in all, two when the agent already
/// stands on the in-front coordinate.
pub proof fn lemma_eaten_converges_to_respawn(a: GhostActor, house: GhostHouse, board: Board)
    requires
        house.wf(),
        house.front@.contains(a.position) || a.position == house.front_center,
    ensures
        ({
            let s1 = spec_eaten_step(a, house, board);
            let m1 = GhostActor { position: s1.target.spec_pos(), ..s1 };
            let s2 = spec_eaten_step(m1, house, board);
            let m2 = GhostActor { position: s2.target.spec_pos(), ..s2 };
            let s3 = spec_eaten_step(m2, house, board);
            &&& (a.position == house.front_center ==> {
                &&& s1.target.spec_pos() == house.center
                &&& s2.target.spec_pos() == house.spec_respawn_of(a.id)
            })
            &&& (a.position != house.front_center ==> {
                &&& s1.target.spec_pos() == house.front_center
                &&& s2.target.spec_pos() == house.center
                &&& s3.target.spec_pos() == house.spec_respawn_of(a.id)
            })
        }),
{
}

/// Returns whether `p` is one of the tiles in front of the entrance.
fn position_in_front_of_entrance(house: &GhostHouse, p: &Position) -> (r: bool)
    ensures
        r == house.front@.contains(*p),
{
    let front = house.positions_in_front_of_entrance();
    let mut i: usize = 0;
    while i < front.len()
        invariant
            front@ == house.front@,
            0 <= i <= front@.len(),
            forall|j: int| 0 <= j < i ==> front@[j] != *p,
        decreases front@.len() - i,
    {
        if front[i] == *p {
            proof {
                assert(front@[i as int] == *p);
            }
            return true;
        }
        i = i + 1;
    }
    false
}

} // verus!
