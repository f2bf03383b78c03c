//! The per-tick transforms over the world: random-walk velocities,
//! movement integration, and the sprite layout for a frame.

use vstd::prelude::*;
use rand::RngExt;
use crate::world::{World, Position, Velocity, MAX_SPEED, COORD_LIMIT, SUBPIXELS_PER_PIXEL};

verus! {

/// The sprite is a square of this many pixels on each side.
pub const SPRITE_SIZE: u32 = 32;

/// Every blit rotates the sprite by this many degrees.
pub const SPRITE_ANGLE_DEGREES: u32 = 90;

/// The rotation center of the sprite, on both axes, in pixels.
pub const SPRITE_CENTER: i32 = 16;

/// rand's thread-local generator, carried opaquely through the library.
#[verifier::external_type_specification]
#[verifier::external_body]
pub struct ExThreadRng(rand::rngs::ThreadRng);

/// Relies on rand::rng: a handle to the thread-local generator. It panics
/// only if the operating system cannot seed that generator at its first
/// use, which no argument of ours can rule out.
#[verifier::external_body]
fn fresh_rng() -> rand::rngs::ThreadRng {
    rand::rng()
}

/// Relies on rand's `RngExt::random_range` over a `Range<i64>`: the sample
/// is uniform over `[lo, hi)`, and the call panics on an empty range, which
/// the requires rules out. Nothing more can be promised of a random draw.
#[verifier::external_body]
fn sample_range(rng: &mut rand::rngs::ThreadRng, lo: i64, hi: i64) -> (r: i64)
    requires
        lo < hi,
    ensures
        lo <= r < hi,
{
    rng.random_range(lo..hi)
}

/// Replaces every entity's velocity by two fresh draws, uniform over
/// `[-MAX_SPEED, MAX_SPEED)` subpixels per tick on each axis. Positions
/// and the entity count are untouched.
pub fn random_walk_system(world: &mut World)
    ensures
        final(world).entities@.len() == old(world).entities@.len(),
        forall|i: int| 0 <= i < old(world).entities@.len() ==>
            (#[trigger] final(world).entities@[i]).position == old(world).entities@[i].position,
        forall|i: int| 0 <= i < final(world).entities@.len() ==> {
            &&& -MAX_SPEED <= (#[trigger] final(world).entities@[i]).velocity.x < MAX_SPEED
            &&& -MAX_SPEED <= final(world).entities@[i].velocity.y < MAX_SPEED
        },
{
    let mut rng = fresh_rng();
    let n = world.entities.len();
    let mut i: usize = 0;
    while i < n
        invariant
            i <= n,
            n == world.entities@.len(),
            world.entities@.len() == old(world).entities@.len(),
            forall|j: int| 0 <= j < n ==>
                (#[trigger] world.entities@[j]).position == old(world).entities@[j].position,
            forall|j: int| 0 <= j < i ==> {
                &&& -MAX_SPEED <= (#[trigger] world.entities@[j]).velocity.x < MAX_SPEED
                &&& -MAX_SPEED <= world.entities@[j].velocity.y < MAX_SPEED
            },
        decreases n - i,
    {
        let vx = sample_range(&mut rng, -MAX_SPEED, MAX_SPEED);
        let vy = sample_range(&mut rng, -MAX_SPEED, MAX_SPEED);
        let mut e = world.entities[i];
        e.velocity = Velocity { x: vx, y: vy };
        world.entities[i] = e;
        i = i + 1;
    }
}

/// Integrates velocity into position: every entity moves by its velocity,
/// with no clamping. Velocities and the entity count are untouched.
pub fn movement_system(world: &mut World)
    requires
        old(world).wf(),
    ensures
        final(world).entities@.len() == old(world).entities@.len(),
        forall|i: int| 0 <= i < old(world).entities@.len() ==> {
            let e0 = old(world).entities@[i];
            &&& (#[trigger] final(world).entities@[i]).position.x == e0.position.x + e0.velocity.x
            &&& final(world).entities@[i].position.y == e0.position.y + e0.velocity.y
            &&& final(world).entities@[i].velocity == e0.velocity
        },
{
    let n = world.entities.len();
    let mut i: usize = 0;
    while i < n
        invariant
            i <= n,
            n == world.entities@.len(),
            world.entities@.len() == old(world).entities@.len(),
            forall|j: int| i <= j < n ==>
                (#[trigger] world.entities@[j]) == old(world).entities@[j],
            forall|j: int| 0 <= j < i ==> {
                let e0 = old(world).entities@[j];
                &&& (#[trigger] world.entities@[j]).position.x == e0.position.x + e0.velocity.x
                &&& world.entities@[j].position.y == e0.position.y + e0.velocity.y
                &&& world.entities@[j].velocity == e0.velocity
            },
            old(world).wf(),
        decreases n - i,
    {
        let mut e = world.entities[i];
        assert(old(world).entities@[i as int].wf());
        e.position.x = e.position.x + e.velocity.x;
        e.position.y = e.position.y + e.velocity.y;
        world.entities[i] = e;
        i = i + 1;
    }
}

/// Rounds a subpixel coordinate to its nearest pixel, ties away from zero.
pub open spec fn round_to_pixel(sub: int) -> int {
    if sub >= 0 {
        (sub + (SUBPIXELS_PER_PIXEL as int) / 2) / (SUBPIXELS_PER_PIXEL as int)
    } else {
        -((-sub + (SUBPIXELS_PER_PIXEL as int) / 2) / (SUBPIXELS_PER_PIXEL as int))
    }
}

/// Saturates a pixel coordinate into the canvas's coordinate type.
pub open spec fn clamp_to_i32(v: int) -> int {
    if v > i32::MAX { i32::MAX as int } else if v < i32::MIN { i32::MIN as int } else { v }
}

/// Rounds a subpixel coordinate to the nearest pixel, ties away from zero,
/// saturated into `i32`.
pub fn pixel_of_subpixel(sub: i64) -> (r: i32)
    requires
        -COORD_LIMIT <= sub <= COORD_LIMIT,
    ensures
        r as int == clamp_to_i32(round_to_pixel(sub as int)),
{
    let half: u64 = (SUBPIXELS_PER_PIXEL as u64) / 2;
    let unit: u64 = SUBPIXELS_PER_PIXEL as u64;
    if sub >= 0 {
        let mag: u64 = ((sub as u64) + half) / unit;
        if mag > (i32::MAX as u64) {
            i32::MAX
        } else {
            mag as i32
        }
    } else {
        let neg: i64 = -sub;
        let mag: u64 = ((neg as u64) + half) / unit;
        if mag > (i32::MAX as u64) + 1 {
            i32::MIN
        } else {
            (-(mag as i64)) as i32
        }
    }
}

/// One sprite blit: the pixel position the sprite is stamped at.
#[derive(Clone, Copy, Debug, PartialEq, Eq, Structural)]
pub struct Blit {
    pub x: i32,
    pub y: i32,
}

/// Where an entity's sprite lands: its position rounded to whole pixels.
pub open spec fn blit_of(p: Position) -> Blit {
    Blit {
        x: clamp_to_i32(round_to_pixel(p.x as int)) as i32,
        y: clamp_to_i32(round_to_pixel(p.y as int)) as i32,
    }
}

/// Lays out one blit per entity, in entity order.
pub fn draw_system(world: &World) -> (blits: Vec<Blit>)
    requires
        world.wf(),
    ensures
        blits@.len() == world.entities@.len(),
        forall|i: int| 0 <= i < blits@.len() ==>
            (#[trigger] blits@[i]) == blit_of(world.entities@[i].position),
{
    let mut blits: Vec<Blit> = Vec::new();
    let n = world.entities.len();
    let mut i: usize = 0;
    while i < n
        invariant
            i <= n,
            n == world.entities@.len(),
            world.wf(),
            blits@.len() == i,
            forall|j: int| 0 <= j < i ==>
                (#[trigger] blits@[j]) == blit_of(world.entities@[j].position),
        decreases n - i,
    {
        let e = world.entities[i];
        assert(world.entities@[i as int].wf());
        let x = pixel_of_subpixel(e.position.x);
        let y = pixel_of_subpixel(e.position.y);
        blits.push(Blit { x, y });
        i = i + 1;
    }
    blits
}

} // verus!
