//! Collisions of axis-aligned boxes without a physics world: a box that
//! moves by its velocity is stopped at the first box in its way, one axis
//! after the other.

use vstd::prelude::*;
use crate::components::{clamp_i32, clamp_to_i32, EntityId, halved, Vec2};

verus! {

/// A box by its upper left corner and its extents.
#[derive(Clone, Copy, Debug, PartialEq, Eq, Structural)]
pub struct Aabb {
    pub pos: Vec2,
    pub size: Vec2,
}

/// A box by its upper left and its lower right corner.
#[derive(Clone, Copy, Debug, PartialEq, Eq, Structural)]
pub struct Tlbr {
    pub tl: Vec2,
    pub br: Vec2,
}

/// Where a moving box ends up, with the velocity it keeps and the
/// collisions it had beyond the one that stopped it.
#[derive(Clone, Debug, PartialEq, Eq)]
pub struct CollisionResult {
    pub next_pos: Vec2,
    pub next_vel: Vec2,
    pub collision_events: Vec<Collision>,
}

/// The entity `a_id` ran into the entity `b_id`.
#[derive(Clone, Copy, Debug, PartialEq, Eq, Structural)]
pub struct Collision {
    pub a_id: EntityId,
    pub b_id: EntityId,
}

/// One of the four edges of a box.
#[derive(Clone, Copy, Debug, PartialEq, Eq, Structural)]
pub enum Edge {
    Left,
    Right,
    Top,
    Bottom,
}

impl Aabb {
    pub open spec fn left(self) -> int {
        self.pos.x as int
    }

    pub open spec fn right(self) -> int {
        self.pos.x + self.size.x
    }

    pub open spec fn top(self) -> int {
        self.pos.y as int
    }

    pub open spec fn bottom(self) -> int {
        self.pos.y + self.size.y
    }

    /// Whether the box, moved by `dx` and `dy`, and `other` have a point in
    /// common, edges included.
    pub open spec fn touches_at(self, dx: int, dy: int, other: Aabb) -> bool {
        !(self.left() + dx > other.right() || self.right() + dx < other.left() || self.top() + dy
            > other.bottom() || self.bottom() + dy < other.top())
    }

    /// How far the edge `edge` of the box is from being the first that a
    /// box coming towards it meets: the smaller, the earlier. A left and an
    /// upper edge are met from the low coordinates, a right and a lower edge
    /// from the high ones.
    pub open spec fn rank(self, edge: Edge) -> int {
        match edge {
            Edge::Left => self.left(),
            Edge::Right => -self.right(),
            Edge::Top => self.top(),
            Edge::Bottom => -self.bottom(),
        }
    }

    /// The box of the given corner and extents.
    pub fn new(pos: Vec2, size: Vec2) -> (aabb: Aabb)
        ensures
            aabb == (Aabb { pos, size }),
    {
        Aabb { pos, size }
    }

    /// The corners of the box; a corner beyond the reach of the machine's
    /// integers is put at their end.
    pub fn get_bounds(&self) -> (bounds: Tlbr)
        ensures
            bounds.tl == self.pos,
            bounds.br == (Vec2 { x: clamp_i32(self.right()), y: clamp_i32(self.bottom()) }),
    {
        Tlbr {
            tl: self.pos,
            br: Vec2 {
                x: clamp_to_i32(self.pos.x as i64 + self.size.x as i64),
                y: clamp_to_i32(self.pos.y as i64 + self.size.y as i64),
            },
        }
    }

    /// Whether the two boxes have a point in common, edges included.
    pub fn intersects(&self, other: &Aabb) -> (touching: bool)
        ensures
            touching == self.touches_at(0, 0, *other),
    {
        self.intersects_at(0, 0, other)
    }

    fn intersects_at(&self, dx: i32, dy: i32, other: &Aabb) -> (touching: bool)
        ensures
            touching == self.touches_at(dx as int, dy as int, *other),
    {
        let left: i64 = self.pos.x as i64 + dx as i64;
        let right: i64 = left + self.size.x as i64;
        let top: i64 = self.pos.y as i64 + dy as i64;
        let bottom: i64 = top + self.size.y as i64;
        let other_right: i64 = other.pos.x as i64 + other.size.x as i64;
        let other_bottom: i64 = other.pos.y as i64 + other.size.y as i64;
        !(left > other_right || right < other.pos.x as i64 || top > other_bottom || bottom
            < other.pos.y as i64)
    }

    fn rank_of(&self, edge: Edge) -> (rank: i64)
        ensures
            rank == self.rank(edge),
            -0x1_0000_0000 <= rank <= 0x1_0000_0000,
    {
        match edge {
            Edge::Left => self.pos.x as i64,
            Edge::Right => -(self.pos.x as i64 + self.size.x as i64),
            Edge::Top => self.pos.y as i64,
            Edge::Bottom => -(self.pos.y as i64 + self.size.y as i64),
        }
    }

    /// The middle of the box, each coordinate rounded towards the corner.
    pub fn center(&self) -> (middle: Vec2)
        ensures
            middle == (Vec2 {
                x: clamp_i32(self.pos.x + halved(self.size.x as int)),
                y: clamp_i32(self.pos.y + halved(self.size.y as int)),
            }),
    {
        Vec2 {
            x: clamp_to_i32(self.pos.x as i64 + (self.size.x / 2) as i64),
            y: clamp_to_i32(self.pos.y as i64 + (self.size.y / 2) as i64),
        }
    }
}

impl Tlbr {
    /// Whether the two boxes have a point in common, edges included.
    pub open spec fn touches(self, other: Tlbr) -> bool {
        !(self.tl.x > other.br.x || self.br.x < other.tl.x || self.tl.y > other.br.y || self.br.y
            < other.tl.y)
    }

    /// The box of the given corners.
    pub fn new(tl: Vec2, br: Vec2) -> (tlbr: Tlbr)
        ensures
            tlbr == (Tlbr { tl, br }),
    {
        Tlbr { tl, br }
    }

    /// The box by its corner and its extents; extents beyond the reach of
    /// the machine's integers are put at their end.
    pub fn get_aabb(&self) -> (aabb: Aabb)
        ensures
            aabb.pos == self.tl,
            aabb.size == (Vec2 {
                x: clamp_i32(self.br.x - self.tl.x),
                y: clamp_i32(self.br.y - self.tl.y),
            }),
    {
        Aabb {
            pos: self.tl,
            size: Vec2 {
                x: clamp_to_i32(self.br.x as i64 - self.tl.x as i64),
                y: clamp_to_i32(self.br.y as i64 - self.tl.y as i64),
            },
        }
    }

    /// Whether the two boxes have a point in common, edges included.
    pub fn intersects(&self, other: &Tlbr) -> (touching: bool)
        ensures
            touching == self.touches(*other),
    {
        !(self.tl.x > other.br.x || self.br.x < other.tl.x || self.tl.y > other.br.y || self.br.y
            < other.tl.y)
    }

    /// The middle of the box, each coordinate rounded towards zero.
    pub fn center(&self) -> (middle: Vec2)
        ensures
            middle == (Vec2 {
                x: halved(self.tl.x + self.br.x) as i32,
                y: halved(self.tl.y + self.br.y) as i32,
            }),
    {
        let x: i64 = (self.tl.x as i64 + self.br.x as i64) / 2;
        let y: i64 = (self.tl.y as i64 + self.br.y as i64) / 2;
        Vec2 { x: x as i32, y: y as i32 }
    }
}

/// The boxes among the first `n` of `shapes` that the box `shape` of the
/// entity `id`, moved by `dx` and `dy`, touches; its own box is not among them.
pub open spec fn hits(
    id: EntityId,
    shape: Aabb,
    dx: int,
    dy: int,
    shapes: Seq<(EntityId, Aabb)>,
    n: nat,
) -> Seq<(EntityId, Aabb)>
    decreases n,
{
    if n == 0 {
        Seq::empty()
    } else {
        let earlier = hits(id, shape, dx, dy, shapes, (n - 1) as nat);
        let other = shapes[n - 1];
        if other.0 != id && shape.touches_at(dx, dy, other.1) {
            earlier.push(other)
        } else {
            earlier
        }
    }
}

/// The least rank of the edge `edge` among the first `n` of `shapes`, for `n > 0`.
pub open spec fn least_rank(shapes: Seq<(EntityId, Aabb)>, edge: Edge, n: nat) -> int
    decreases n,
{
    if n <= 1 {
        shapes[0].1.rank(edge)
    } else {
        let earlier = least_rank(shapes, edge, (n - 1) as nat);
        let rank = shapes[n - 1].1.rank(edge);
        if rank < earlier {
            rank
        } else {
            earlier
        }
    }
}

/// The entities among the first `n` of `shapes` whose edge `edge` has the rank `rank`.
pub open spec fn ranked(shapes: Seq<(EntityId, Aabb)>, edge: Edge, rank: int, n: nat) -> Seq<
    EntityId,
>
    decreases n,
{
    if n == 0 {
        Seq::empty()
    } else {
        let earlier = ranked(shapes, edge, rank, (n - 1) as nat);
        if shapes[n - 1].1.rank(edge) == rank {
            earlier.push(shapes[n - 1].0)
        } else {
            earlier
        }
    }
}

/// The entities of all of `shapes`.
pub open spec fn entities_of(shapes: Seq<(EntityId, Aabb)>) -> Seq<EntityId> {
    shapes.map_values(|s: (EntityId, Aabb)| s.0)
}

/// What the move along one axis comes to.
pub struct Sweep {
    /// Whether a box was in the way.
    pub blocked: bool,
    /// The edge of the first box in the way, by its rank, where the box moves.
    pub stop: Option<int>,
    /// The entities it collided with beyond the first.
    pub others: Seq<EntityId>,
}

/// The move of a box along one axis at the velocity `vel`, given the boxes
/// `touched` that it would touch. A moving box stops at the first box in its
/// way, `towards` being the edge it meets when `vel` is positive and `away`
/// the one it meets when `vel` is negative; it collides with every further
/// box whose edge lies as near. A box at rest collides with all that it touches.
pub open spec fn sweep(touched: Seq<(EntityId, Aabb)>, vel: int, towards: Edge, away: Edge) -> Sweep {
    if touched.len() == 0 {
        Sweep { blocked: false, stop: None, others: Seq::empty() }
    } else if vel == 0 {
        Sweep { blocked: true, stop: None, others: entities_of(touched) }
    } else {
        let edge = if vel > 0 {
            towards
        } else {
            away
        };
        let rank = least_rank(touched, edge, touched.len());
        Sweep {
            blocked: true,
            stop: Some(rank),
            others: ranked(touched, edge, rank, touched.len()).drop_first(),
        }
    }
}

/// The collisions of the entity `id` with `others`.
pub open spec fn collisions_with(id: EntityId, others: Seq<EntityId>) -> Seq<Collision> {
    others.map_values(|other: EntityId| Collision { a_id: id, b_id: other })
}

/// Where the box `shape` of the entity `id` ends up when it moves by `vel`
/// among `shapes`.
///
/// The two axes are tried one after the other, each from where the box
/// stands. Along an axis on which a box is in the way of a moving box, the
/// box is put against the edge of the first box in its way and loses its
/// speed. Where no box is in the way on either axis, the box moves by its
/// velocity; otherwise it stays where it is along an axis that is free.
/// Places beyond the reach of the machine's integers are put at their end.
pub open spec fn impassable(
    id: EntityId,
    shape: Aabb,
    vel: Vec2,
    shapes: Seq<(EntityId, Aabb)>,
) -> (Vec2, Vec2, Seq<Collision>) {
    let along_x = sweep(
        hits(id, shape, vel.x as int, 0, shapes, shapes.len()),
        vel.x as int,
        Edge::Left,
        Edge::Right,
    );
    let along_y = sweep(
        hits(id, shape, 0, vel.y as int, shapes, shapes.len()),
        vel.y as int,
        Edge::Top,
        Edge::Bottom,
    );
    let events = collisions_with(id, along_x.others) + collisions_with(id, along_y.others);
    if !along_x.blocked && !along_y.blocked {
        (
            Vec2 { x: clamp_i32(shape.pos.x + vel.x), y: clamp_i32(shape.pos.y + vel.y) },
            vel,
            events,
        )
    } else {
        (
            Vec2 {
                x: match along_x.stop {
                    Some(rank) => if vel.x > 0 {
                        clamp_i32(rank - shape.size.x)
                    } else {
                        clamp_i32(-rank)
                    },
                    None => shape.pos.x,
                },
                y: match along_y.stop {
                    Some(rank) => if vel.y > 0 {
                        clamp_i32(rank - shape.size.y)
                    } else {
                        clamp_i32(-rank)
                    },
                    None => shape.pos.y,
                },
            },
            Vec2 {
                x: if along_x.stop is Some {
                    0
                } else {
                    vel.x
                },
                y: if along_y.stop is Some {
                    0
                } else {
                    vel.y
                },
            },
            events,
        )
    }
}

/// The boxes of `shapes` that the box `shape` of `id`, moved by `dx` and `dy`, touches.
fn find_hits(id: EntityId, shape: &Aabb, dx: i32, dy: i32, shapes: &Vec<(EntityId, Aabb)>) -> (touched:
    Vec<(EntityId, Aabb)>)
    ensures
        touched@ == hits(id, *shape, dx as int, dy as int, shapes@, shapes@.len()),
{
    let mut touched: Vec<(EntityId, Aabb)> = Vec::new();
    let mut i: usize = 0;
    while i < shapes.len()
        invariant
            i <= shapes.len(),
            touched@ == hits(id, *shape, dx as int, dy as int, shapes@, i as nat),
        decreases shapes.len() - i,
    {
        let other = shapes[i];
        if other.0 != id && shape.intersects_at(dx, dy, &other.1) {
            touched.push(other);
        }
        i += 1;
    }
    touched
}

/// Appends the collisions of `id` with all of `touched` to `events`.
fn collide_with_all(id: EntityId, touched: &Vec<(EntityId, Aabb)>, events: &mut Vec<Collision>)
    ensures
        final(events)@ == old(events)@ + collisions_with(id, entities_of(touched@)),
{
    let mut i: usize = 0;
    while i < touched.len()
        invariant
            i <= touched.len(),
            events@ =~= old(events)@ + collisions_with(id, entities_of(touched@).take(i as int)),
        decreases touched.len() - i,
    {
        events.push(Collision { a_id: id, b_id: touched[i].0 });
        i += 1;
    }
    assert(entities_of(touched@).take(touched.len() as int) =~= entities_of(touched@));
}

/// The least rank of `edge` among `touched`, and the collisions of `id` with
/// every box of that rank but the first, appended to `events`.
fn stop_at_first(
    id: EntityId,
    touched: &Vec<(EntityId, Aabb)>,
    edge: Edge,
    events: &mut Vec<Collision>,
) -> (rank: i64)
    requires
        touched.len() > 0,
    ensures
        rank == least_rank(touched@, edge, touched@.len()),
        -0x1_0000_0000 <= rank <= 0x1_0000_0000,
        final(events)@ == old(events)@ + collisions_with(
            id,
            ranked(touched@, edge, rank as int, touched@.len()).drop_first(),
        ),
{
    let mut rank: i64 = touched[0].1.rank_of(edge);
    let mut i: usize = 1;
    while i < touched.len()
        invariant
            1 <= i <= touched.len(),
            rank == least_rank(touched@, edge, i as nat),
            -0x1_0000_0000 <= rank <= 0x1_0000_0000,
        decreases touched.len() - i,
    {
        let other = touched[i].1.rank_of(edge);
        if other < rank {
            rank = other;
        }
        i += 1;
    }
    let mut seen: usize = 0;
    let mut j: usize = 0;
    let ghost start = events@;
    while j < touched.len()
        invariant
            j <= touched.len(),
            seen <= j,
            start == old(events)@,
            seen == ranked(touched@, edge, rank as int, j as nat).len(),
            seen == 0 ==> events@ == start,
            seen > 0 ==> events@ =~= start + collisions_with(
                id,
                ranked(touched@, edge, rank as int, j as nat).drop_first(),
            ),
        decreases touched.len() - j,
    {
        if touched[j].1.rank_of(edge) == rank {
            if seen > 0 {
                events.push(Collision { a_id: id, b_id: touched[j].0 });
            }
            seen += 1;
        }
        j += 1;
    }
    proof {
        least_rank_is_attained(touched@, edge, touched@.len());
        assert(seen > 0);
    }
    rank
}

/// The least rank is the rank of one of the boxes.
pub proof fn least_rank_is_attained(shapes: Seq<(EntityId, Aabb)>, edge: Edge, n: nat)
    requires
        0 < n <= shapes.len(),
    ensures
        ranked(shapes, edge, least_rank(shapes, edge, n), n).len() > 0,
        forall|i: int| 0 <= i < n ==> least_rank(shapes, edge, n) <= (#[trigger] shapes[i]).1.rank(edge),
    decreases n,
{
    if n > 1 {
        least_rank_is_attained(shapes, edge, (n - 1) as nat);
        let earlier = least_rank(shapes, edge, (n - 1) as nat);
        let rank = shapes[n - 1].1.rank(edge);
        if rank >= earlier {
            ranked_grows(shapes, edge, earlier, (n - 1) as nat, n);
        }
    }
}

/// More boxes have no fewer boxes of a rank among them.
pub proof fn ranked_grows(shapes: Seq<(EntityId, Aabb)>, edge: Edge, rank: int, m: nat, n: nat)
    requires
        m <= n <= shapes.len(),
    ensures
        ranked(shapes, edge, rank, m).len() <= ranked(shapes, edge, rank, n).len(),
    decreases n,
{
    if m < n {
        ranked_grows(shapes, edge, rank, m, (n - 1) as nat);
    }
}

/// Moves the box `shape` of the entity `id` by `vel` among the boxes
/// `collidable_shapes`, which it cannot pass; see `impassable`.
pub fn do_impassable_collisions(
    id: EntityId,
    shape: Aabb,
    vel: Vec2,
    collidable_shapes: Vec<(EntityId, Aabb)>,
) -> (result: CollisionResult)
    ensures
        (result.next_pos, result.next_vel, result.collision_events@) == impassable(
            id,
            shape,
            vel,
            collidable_shapes@,
        ),
{
    let mut next_pos = shape.pos;
    let mut next_vel = vel;
    let mut events: Vec<Collision> = Vec::new();
    let mut blocked = false;

    let touched = find_hits(id, &shape, vel.x, 0, &collidable_shapes);
    if touched.len() > 0 {
        blocked = true;
        if vel.x > 0 {
            let rank = stop_at_first(id, &touched, Edge::Left, &mut events);
            next_pos.x = clamp_to_i32(rank - shape.size.x as i64);
            next_vel.x = 0;
        } else if vel.x < 0 {
            let rank = stop_at_first(id, &touched, Edge::Right, &mut events);
            next_pos.x = clamp_to_i32(-rank);
            next_vel.x = 0;
        } else {
            collide_with_all(id, &touched, &mut events);
        }
    }
    let ghost along_x = events@;

    let touched = find_hits(id, &shape, 0, vel.y, &collidable_shapes);
    if touched.len() > 0 {
        blocked = true;
        if vel.y > 0 {
            let rank = stop_at_first(id, &touched, Edge::Top, &mut events);
            next_pos.y = clamp_to_i32(rank - shape.size.y as i64);
            next_vel.y = 0;
        } else if vel.y < 0 {
            let rank = stop_at_first(id, &touched, Edge::Bottom, &mut events);
            next_pos.y = clamp_to_i32(-rank);
            next_vel.y = 0;
        } else {
            collide_with_all(id, &touched, &mut events);
        }
    }

    if !blocked {
        next_pos = Vec2 {
            x: clamp_to_i32(shape.pos.x as i64 + vel.x as i64),
            y: clamp_to_i32(shape.pos.y as i64 + vel.y as i64),
        };
    }
    proof {
        let expected = impassable(id, shape, vel, collidable_shapes@);
        assert(events@ =~= expected.2);
    }
    CollisionResult { next_pos, next_vel, collision_events: events }
}

/// The collisions of the box `shape` of the entity `id` with the boxes of
/// `collidable_shapes` that it touches where it stands.
pub fn check_for_collisions(
    id: EntityId,
    shape: Aabb,
    collidable_shapes: Vec<(EntityId, Aabb)>,
) -> (collisions: Vec<Collision>)
    ensures
        collisions@ == collisions_with(
            id,
            entities_of(hits(id, shape, 0, 0, collidable_shapes@, collidable_shapes@.len())),
        ),
{
    let touched = find_hits(id, &shape, 0, 0, &collidable_shapes);
    let mut collisions: Vec<Collision> = Vec::new();
    collide_with_all(id, &touched, &mut collisions);
    collisions
}

} // verus!
