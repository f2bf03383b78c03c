use hue_walk::color::{advance_hue, convert_hew_to_color, Rgb};
use hue_walk::state::{MainState, DEFAULT_ENTITY_COUNT, SPAWN_X, SPAWN_Y};
use hue_walk::systems::{draw_system, movement_system, pixel_of_subpixel, random_walk_system, Blit};
use hue_walk::text::caption_for;
use hue_walk::world::{Entity, Position, Velocity, World, MAX_SPEED};

#[test]
fn hue_after_many_ticks_wraps_modulo_360() {
    let mut hue: u16 = 0;
    for _ in 0..725 {
        hue = advance_hue(hue);
    }
    assert_eq!(hue, 725 % 360);
    assert_eq!(hue, 5);
}

#[test]
fn hue_advances_by_one_and_wraps() {
    assert_eq!(advance_hue(0), 1);
    assert_eq!(advance_hue(358), 359);
    assert_eq!(advance_hue(359), 0);
}

#[test]
fn primary_hues_convert_to_primary_colors() {
    assert_eq!(convert_hew_to_color(0), Rgb { r: 255, g: 0, b: 0 });
    assert_eq!(convert_hew_to_color(120), Rgb { r: 0, g: 255, b: 0 });
    assert_eq!(convert_hew_to_color(240), Rgb { r: 0, g: 0, b: 255 });
}

#[test]
fn movement_adds_velocity_to_every_position() {
    let mut world = World::new();
    let batch = vec![
        (Position::new(10, 20), Velocity::new(3, -4)),
        (Position::new(0, 0), Velocity::new(-5000, 4999)),
        (Position::new(400_000, 300_000), Velocity::new(0, 0)),
    ];
    world.spawn_batch(&batch);
    movement_system(&mut world);
    assert_eq!(world.entities[0].position, Position { x: 13, y: 16 });
    assert_eq!(world.entities[1].position, Position { x: -5000, y: 4999 });
    assert_eq!(world.entities[2].position, Position { x: 400_000, y: 300_000 });
    assert_eq!(world.entities[0].velocity, Velocity { x: 3, y: -4 });
}

#[test]
fn random_walk_keeps_every_velocity_in_range() {
    let mut world = World::new();
    let batch = vec![(Position::new(400_000, 300_000), Velocity::new(0, 0)); 500];
    world.spawn_batch(&batch);
    random_walk_system(&mut world);
    for e in &world.entities {
        assert!(-MAX_SPEED <= e.velocity.x && e.velocity.x < MAX_SPEED);
        assert!(-MAX_SPEED <= e.velocity.y && e.velocity.y < MAX_SPEED);
        assert_eq!(e.position, Position { x: 400_000, y: 300_000 });
    }
}

#[test]
fn setup_spawns_the_configured_count_at_rest() {
    let state = MainState::new();
    assert_eq!(state.hew, 0);
    assert_eq!(state.entity_count, DEFAULT_ENTITY_COUNT);
    let mut world = World::new();
    state.setup(&mut world);
    assert_eq!(world.entities.len(), 100_000);
    for e in &world.entities {
        assert_eq!(e.position, Position { x: SPAWN_X, y: SPAWN_Y });
        assert_eq!(e.velocity, Velocity { x: 0, y: 0 });
    }
}

#[test]
fn zero_entities_tick_and_frame_still_work() {
    let mut state = MainState { hew: 0, entity_count: 0 };
    let mut world = World::new();
    state.setup(&mut world);
    assert_eq!(world.entities.len(), 0);
    state.update(&mut world);
    assert_eq!(state.hew, 1);
    let frame = state.render(&world);
    assert_eq!(frame.blits.len(), 0);
    assert_eq!(frame.clear_color, convert_hew_to_color(1));
    assert_eq!(frame.caption, "Hello, World! 0 entities".to_string());
}

#[test]
fn one_update_draws_then_applies_the_same_velocity() {
    let mut state = MainState { hew: 359, entity_count: 4 };
    let mut world = World::new();
    state.setup(&mut world);
    state.update(&mut world);
    assert_eq!(state.hew, 0);
    assert_eq!(world.entities.len(), 4);
    for e in &world.entities {
        assert!(-MAX_SPEED <= e.velocity.x && e.velocity.x < MAX_SPEED);
        assert!(-MAX_SPEED <= e.velocity.y && e.velocity.y < MAX_SPEED);
        assert_eq!(e.position.x, SPAWN_X + e.velocity.x);
        assert_eq!(e.position.y, SPAWN_Y + e.velocity.y);
    }
}

#[test]
fn rounding_is_nearest_pixel_ties_away_from_zero() {
    assert_eq!(pixel_of_subpixel(0), 0);
    assert_eq!(pixel_of_subpixel(499), 0);
    assert_eq!(pixel_of_subpixel(500), 1);
    assert_eq!(pixel_of_subpixel(1499), 1);
    assert_eq!(pixel_of_subpixel(1500), 2);
    assert_eq!(pixel_of_subpixel(-499), 0);
    assert_eq!(pixel_of_subpixel(-500), -1);
    assert_eq!(pixel_of_subpixel(-1500), -2);
    assert_eq!(pixel_of_subpixel(400_000), 400);
}

#[test]
fn draw_lays_out_one_blit_per_entity_at_rounded_pixels() {
    let mut world = World::new();
    let batch = vec![
        (Position::new(400_000, 300_000), Velocity::new(0, 0)),
        (Position::new(1500, -1500), Velocity::new(1, 2)),
    ];
    world.spawn_batch(&batch);
    let blits = draw_system(&world);
    assert_eq!(blits.len(), 2);
    assert_eq!(blits[0], Blit { x: 400, y: 300 });
    assert_eq!(blits[1], Blit { x: 2, y: -2 });
}

#[test]
fn caption_shows_the_entity_count() {
    assert_eq!(caption_for(100_000), "Hello, World! 100000 entities".to_string());
    assert_eq!(caption_for(0), "Hello, World! 0 entities".to_string());
    assert_eq!(caption_for(90671), "Hello, World! 90671 entities".to_string());
}

#[test]
fn check_wf_accepts_sane_worlds_and_refuses_wild_ones() {
    let mut world = World::new();
    world.spawn_batch(&vec![(Position::new(1, 2), Velocity::new(3, 4))]);
    assert!(world.check_wf());
    world.entities.push(Entity {
        position: Position::new(0, 0),
        velocity: Velocity::new(6000, 0),
    });
    assert!(!world.check_wf());
}
