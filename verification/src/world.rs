//! The entity store: positions and velocities in subpixel units.

use vstd::prelude::*;

verus! {

/// Coordinates are fixed-point: this many subpixel units make one pixel.
pub const SUBPIXELS_PER_PIXEL: i64 = 1000;

/// A velocity component drawn by the random walk lies in
/// `[-MAX_SPEED, MAX_SPEED)` subpixel units per tick (five pixels per tick).
pub const MAX_SPEED: i64 = 5 * 1000;

/// Position components stay within this bound, so that one integration step
/// cannot overflow an `i64`.
pub const COORD_LIMIT: i64 = i64::MAX - 5000;

/// An entity's location, in subpixel units of the window's pixel grid.
#[derive(Clone, Copy, Debug, PartialEq, Eq, Structural)]
pub struct Position {
    pub x: i64,
    pub y: i64,
}

impl Position {
    pub fn new(x: i64, y: i64) -> (p: Position)
        ensures
            p.x == x,
            p.y == y,
    {
        Position { x, y }
    }
}

/// An entity's per-tick displacement, in subpixel units per tick.
#[derive(Clone, Copy, Debug, PartialEq, Eq, Structural)]
pub struct Velocity {
    pub x: i64,
    pub y: i64,
}

impl Velocity {
    pub fn new(x: i64, y: i64) -> (v: Velocity)
        ensures
            v.x == x,
            v.y == y,
    {
        Velocity { x, y }
    }
}

/// One entity: a position and a velocity.
#[derive(Clone, Copy, Debug, PartialEq, Eq, Structural)]
pub struct Entity {
    pub position: Position,
    pub velocity: Velocity,
}

impl Entity {
    /// Well-formedness: the velocity is one the random walk could have
    /// drawn, and the position is far enough from the ends of `i64` that
    /// one integration step cannot overflow.
    pub open spec fn wf(self) -> bool {
        &&& -MAX_SPEED <= self.velocity.x < MAX_SPEED
        &&& -MAX_SPEED <= self.velocity.y < MAX_SPEED
        &&& -COORD_LIMIT <= self.position.x <= COORD_LIMIT
        &&& -COORD_LIMIT <= self.position.y <= COORD_LIMIT
    }
}

/// Pairs a position with a velocity as one entity.
pub open spec fn entity_of(pv: (Position, Velocity)) -> Entity {
    Entity { position: pv.0, velocity: pv.1 }
}

/// The world: every entity, in spawn order.
pub struct World {
    pub entities: Vec<Entity>,
}

impl World {
    /// Every entity of the world is well-formed.
    pub open spec fn wf(self) -> bool {
        forall|i: int|
            0 <= i < self.entities@.len() ==> (#[trigger] self.entities@[i]).wf()
    }

    pub fn new() -> (w: World)
        ensures
            w.entities@ == Seq::<Entity>::empty(),
    {
        World { entities: Vec::new() }
    }

    /// Decides well-formedness, so that an unverified caller can test it
    /// before asking for a tick.
    pub fn check_wf(&self) -> (b: bool)
        ensures
            b == self.wf(),
    {
        let n = self.entities.len();
        let mut i: usize = 0;
        while i < n
            invariant
                i <= n,
                n == self.entities@.len(),
                forall|j: int| 0 <= j < i ==> (#[trigger] self.entities@[j]).wf(),
            decreases n - i,
        {
            let e = self.entities[i];
            if !(-MAX_SPEED <= e.velocity.x && e.velocity.x < MAX_SPEED
                && -MAX_SPEED <= e.velocity.y && e.velocity.y < MAX_SPEED
                && -COORD_LIMIT <= e.position.x && e.position.x <= COORD_LIMIT
                && -COORD_LIMIT <= e.position.y && e.position.y <= COORD_LIMIT) {
                assert(!self.entities@[i as int].wf());
                return false;
            }
            i = i + 1;
        }
        true
    }

    /// Appends one entity per pair of the batch, keeping spawn order.
    pub fn spawn_batch(&mut self, batch: &Vec<(Position, Velocity)>)
        ensures
            final(self).entities@ == old(self).entities@
                + batch@.map_values(|pv: (Position, Velocity)| entity_of(pv)),
    {
        let ghost mapped = batch@.map_values(|pv: (Position, Velocity)| entity_of(pv));
        let mut i: usize = 0;
        while i < batch.len()
            invariant
                i <= batch.len(),
                mapped == batch@.map_values(|pv: (Position, Velocity)| entity_of(pv)),
                self.entities@ == old(self).entities@ + mapped.take(i as int),
            decreases batch.len() - i,
        {
            let (p, v) = batch[i];
            self.entities.push(Entity { position: p, velocity: v });
            proof {
                assert(mapped.take(i + 1 as int) =~= mapped.take(i as int).push(mapped[i as int]));
                assert(self.entities@ =~= old(self).entities@ + mapped.take(i + 1 as int));
            }
            i = i + 1;
        }
        proof {
            assert(mapped.take(batch@.len() as int) =~= mapped);
        }
    }
}

} // verus!
