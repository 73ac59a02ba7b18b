use tower_sim::emitter::{Tower, EMITTER_PERIOD, SPAWN_OFFSET_Y, SPAWN_OFFSET_Z};
use tower_sim::geom::{Point3, POS_LIMIT};
use tower_sim::lifetime::{LifeTime, PROJECTILE_LIFETIME};
use tower_sim::timer::{CountdownTimer, TimerError, TimerMode};
use tower_sim::visual::{emitter_visual, projectile_visual};
use tower_sim::world::World;

#[test]
fn zero_duration_is_rejected() {
    assert_eq!(
        CountdownTimer::new(0, TimerMode::Repeating),
        Err(TimerError::ZeroDuration)
    );
    assert_eq!(
        CountdownTimer::new(0, TimerMode::OneShot),
        Err(TimerError::ZeroDuration)
    );
    assert_eq!(LifeTime::new(0), Err(TimerError::ZeroDuration));
    assert!(CountdownTimer::new(1, TimerMode::Repeating).is_ok());
}

#[test]
fn repeating_signals_once_per_period() {
    let mut t = CountdownTimer::new(1000, TimerMode::Repeating).unwrap();
    t.advance(400);
    assert!(!t.just_completed());
    t.advance(400);
    assert!(!t.just_completed());
    t.advance(400);
    assert!(t.just_completed());
    assert_eq!(t.elapsed, 200);
    t.advance(400);
    assert!(!t.just_completed());
    assert_eq!(t.elapsed, 600);
}

#[test]
fn repeating_large_delta_collapses_to_one_signal() {
    let mut t = CountdownTimer::new(1000, TimerMode::Repeating).unwrap();
    // 2.5 periods in one call: one signal, elapsed wraps
    t.advance(2500);
    assert!(t.just_completed());
    assert_eq!(t.elapsed, 500);
    // the signal is edge-triggered: reset by the next advance
    t.advance(100);
    assert!(!t.just_completed());
}

#[test]
fn oneshot_fires_exactly_once() {
    let mut t = CountdownTimer::new(500, TimerMode::OneShot).unwrap();
    t.advance(300);
    assert!(!t.just_completed());
    assert!(!t.is_finished());
    t.advance(300);
    assert!(t.just_completed());
    assert!(t.is_finished());
    // further advances are no-ops and never signal again
    t.advance(300);
    assert!(!t.just_completed());
    t.advance(10_000);
    assert!(!t.just_completed());
    assert!(t.is_finished());
    assert_eq!(t.elapsed, 500);
}

#[test]
fn tower_requests_at_most_one_spawn_per_tick() {
    let mut tower = Tower::new();
    assert_eq!(tower.shooting_timer.duration, EMITTER_PERIOD);
    // a frame hitch spanning three periods still requests only one spawn
    assert!(tower.tick(3250));
    assert_eq!(tower.shooting_timer.elapsed, 250);
    assert!(!tower.tick(500));
}

#[test]
fn emitter_spawns_one_projectile_when_period_crosses() {
    let mut w = World::new();
    let tower_id = w.spawn_scene();
    assert_eq!(tower_id, 0);
    assert_eq!(w.emitters[0].position, Point3 { x: 0, y: 500, z: 0 });

    // deltas of 0.4 time units: the period of 1.0 crosses on the third tick
    w.tick(400);
    assert_eq!(w.projectiles.len(), 0);
    w.tick(400);
    assert_eq!(w.projectiles.len(), 0);
    w.tick(400);
    assert_eq!(w.projectiles.len(), 1);

    let p = &w.projectiles[0];
    // spawned at the fixed forward-and-up offset from its emitter
    assert_eq!(
        p.position,
        Point3 {
            x: 0,
            y: 500 + SPAWN_OFFSET_Y,
            z: SPAWN_OFFSET_Z
        }
    );
    // with a fresh one-shot lifetime of 0.5 time units
    assert_eq!(p.life_time.timer.duration, PROJECTILE_LIFETIME);
    assert_eq!(p.life_time.timer.mode, TimerMode::OneShot);
    assert_eq!(p.life_time.timer.elapsed, 0);
}

#[test]
fn projectile_removed_after_second_tick_not_first() {
    let mut w = World::new();
    w.spawn_scene();
    w.tick(400);
    w.tick(400);
    w.tick(400);
    assert_eq!(w.projectiles.len(), 1);
    // 0.3 + 0.3 >= 0.5: gone after the second tick, not the first
    w.tick(300);
    assert_eq!(w.projectiles.len(), 1);
    w.tick(300);
    assert_eq!(w.projectiles.len(), 0);
    // the emitter itself is never destroyed
    assert_eq!(w.emitters.len(), 1);
}

#[test]
fn removal_is_idempotent_and_leaves_others_alone() {
    let mut w = World::new();
    let tower_id = w.spawn_scene();
    w.tick(1000);
    assert_eq!(w.projectiles.len(), 1);
    let proj_id = w.projectiles[0].id;

    w.despawn(proj_id);
    assert_eq!(w.projectiles.len(), 0);
    assert_eq!(w.emitters.len(), 1);
    let snapshot_emitter = w.emitters[0];

    // removing the already-removed entity again: no error, nothing changes
    w.despawn(proj_id);
    assert_eq!(w.projectiles.len(), 0);
    assert_eq!(w.emitters.len(), 1);
    assert_eq!(w.emitters[0], snapshot_emitter);
    assert_eq!(w.emitters[0].id, tower_id);
}

#[test]
fn removing_an_absent_id_changes_nothing() {
    let mut w = World::new();
    w.spawn_scene();
    w.tick(1000);
    let emitters_before = w.emitters.clone();
    let projectiles_before = w.projectiles.clone();
    w.despawn(777);
    assert_eq!(w.emitters, emitters_before);
    assert_eq!(w.projectiles, projectiles_before);
}

#[test]
fn spawned_ids_are_fresh_and_distinct() {
    let mut w = World::new();
    let a = w.spawn_emitter(Point3 { x: 0, y: 0, z: 0 });
    let b = w.spawn_emitter(Point3 { x: 1000, y: 0, z: 0 });
    assert_ne!(a, b);
    w.tick(1000);
    assert_eq!(w.projectiles.len(), 2);
    assert_ne!(w.projectiles[0].id, w.projectiles[1].id);
    assert_ne!(w.projectiles[0].id, a);
    assert_ne!(w.projectiles[1].id, b);
}

#[test]
fn lookup_by_id_tracks_the_live_set() {
    let mut w = World::new();
    let tower_id = w.spawn_scene();
    assert!(w.contains(tower_id));
    assert!(!w.contains(99));
    w.tick(1000);
    let proj_id = w.projectiles[0].id;
    assert!(w.contains(proj_id));
    w.despawn(proj_id);
    assert!(!w.contains(proj_id));
    assert!(w.contains(tower_id));
}

#[test]
fn visual_parameters_are_fixed_per_kind() {
    let ev = emitter_visual();
    assert_eq!(ev.cube_size, 1000);
    assert_eq!((ev.base_color.r, ev.base_color.g, ev.base_color.b), (254, 920, 900));
    assert_eq!((ev.emissive.r, ev.emissive.g, ev.emissive.b), (0, 0, 0));
    let pv = projectile_visual();
    assert_eq!(pv.cube_size, 100);
    assert_eq!((pv.emissive.r, pv.emissive.g, pv.emissive.b), (13_990, 5_320, 2_000));
}

#[test]
fn emitter_positions_are_clamped_into_bounds() {
    let mut w = World::new();
    w.spawn_emitter(Point3 {
        x: POS_LIMIT + 5,
        y: -(POS_LIMIT + 5),
        z: 3,
    });
    assert_eq!(
        w.emitters[0].position,
        Point3 {
            x: POS_LIMIT,
            y: -POS_LIMIT,
            z: 3
        }
    );
}
