//! The demo's main state and its setup, update and render phases.

use vstd::prelude::*;
use crate::color::{Rgb, rgb_of_hsl, convert_hew_to_color, advance_hue, next_hue};
use crate::systems::{Blit, blit_of, draw_system, movement_system, random_walk_system};
use crate::text::{caption_of, caption_for};
use crate::world::{World, Entity, Position, Velocity, entity_of, MAX_SPEED};

verus! {

/// How many entities the demo spawns.
pub const DEFAULT_ENTITY_COUNT: usize = 100_000;

/// Where every entity spawns: pixel (400, 300), in subpixel units.
pub const SPAWN_X: i64 = 400 * 1000;

pub const SPAWN_Y: i64 = 300 * 1000;

/// The component pair every spawn hands the world: the spawn point,
/// standing still.
pub open spec fn spawn_pair() -> (Position, Velocity) {
    (Position { x: SPAWN_X as i64, y: SPAWN_Y as i64 }, Velocity { x: 0, y: 0 })
}

/// The entity every spawn produces.
pub open spec fn spawned_entity() -> Entity {
    entity_of(spawn_pair())
}

/// Everything one frame paints: the clear color, one blit per entity, and
/// the caption drawn over it all.
pub struct Frame {
    pub clear_color: Rgb,
    pub blits: Vec<Blit>,
    pub caption: String,
}

/// The demo's state: the hue of the clear color and the number of entities
/// to spawn.
pub struct MainState {
    pub hew: u16,
    pub entity_count: usize,
}

impl MainState {
    /// The hue stays within one turn of the hue circle.
    pub open spec fn wf(self) -> bool {
        self.hew < 360
    }

    pub fn new() -> (s: MainState)
        ensures
            s.hew == 0,
            s.entity_count == DEFAULT_ENTITY_COUNT,
            s.wf(),
    {
        MainState { hew: 0, entity_count: DEFAULT_ENTITY_COUNT }
    }

    /// Spawns the configured number of entities, all at the spawn point
    /// with zero velocity, after whatever the world already holds.
    pub fn setup(&self, world: &mut World)
        ensures
            final(world).entities@.len() == old(world).entities@.len() + self.entity_count,
            forall|i: int| 0 <= i < old(world).entities@.len() ==>
                (#[trigger] final(world).entities@[i]) == old(world).entities@[i],
            forall|i: int|
                old(world).entities@.len() <= i < final(world).entities@.len() ==>
                    (#[trigger] final(world).entities@[i]) == spawned_entity(),
            old(world).wf() ==> final(world).wf(),
    {
        let mut batch: Vec<(Position, Velocity)> = Vec::new();
        let mut i: usize = 0;
        while i < self.entity_count
            invariant
                i <= self.entity_count,
                batch@.len() == i,
                forall|j: int| 0 <= j < i ==> (#[trigger] batch@[j]) == spawn_pair(),
            decreases self.entity_count - i,
        {
            batch.push((Position::new(SPAWN_X, SPAWN_Y), Velocity::new(0, 0)));
            i = i + 1;
        }
        world.spawn_batch(&batch);
        proof {
            let mapped = batch@.map_values(|pv: (Position, Velocity)| entity_of(pv));
            assert forall|i: int|
                old(world).entities@.len() <= i < world.entities@.len() implies
                    (#[trigger] world.entities@[i]) == spawned_entity() by {
                assert(world.entities@[i] == mapped[i - old(world).entities@.len()]);
            }
        }
    }

    /// One tick: the hue steps forward, then the random walk assigns every
    /// entity a fresh velocity, then movement integrates that velocity into
    /// its position — so the velocity drawn this tick is the one applied
    /// this tick.
    pub fn update(&mut self, world: &mut World)
        requires
            old(self).wf(),
            old(world).wf(),
        ensures
            final(self).hew == next_hue(old(self).hew as int),
            final(self).entity_count == old(self).entity_count,
            final(self).wf(),
            final(world).entities@.len() == old(world).entities@.len(),
            forall|i: int| 0 <= i < final(world).entities@.len() ==> {
                let e0 = old(world).entities@[i];
                &&& -MAX_SPEED <= (#[trigger] final(world).entities@[i]).velocity.x < MAX_SPEED
                &&& -MAX_SPEED <= final(world).entities@[i].velocity.y < MAX_SPEED
                &&& final(world).entities@[i].position.x
                    == e0.position.x + final(world).entities@[i].velocity.x
                &&& final(world).entities@[i].position.y
                    == e0.position.y + final(world).entities@[i].velocity.y
            },
    {
        self.hew = advance_hue(self.hew);
        random_walk_system(world);
        movement_system(world);
    }

    /// Lays out one frame: the clear color for the current hue, one sprite
    /// blit per entity, and the caption.
    pub fn render(&self, world: &World) -> (f: Frame)
        requires
            self.wf(),
            world.wf(),
        ensures
            (f.clear_color.r, f.clear_color.g, f.clear_color.b)
                == rgb_of_hsl(self.hew as int, 100, 50),
            f.blits@.len() == world.entities@.len(),
            forall|i: int| 0 <= i < f.blits@.len() ==>
                (#[trigger] f.blits@[i]) == blit_of(world.entities@[i].position),
            f.caption@ == caption_of(self.entity_count as nat),
    {
        Frame {
            clear_color: convert_hew_to_color(self.hew),
            blits: draw_system(world),
            caption: caption_for(self.entity_count),
        }
    }
}

} // verus!
