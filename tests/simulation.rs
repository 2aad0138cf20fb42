use bouncing_balls::particle::{advance, advance_particle, Particle, Rgba, Vector, Viewport};
use bouncing_balls::random::{non_zero_rand, resolve_draw, Draw, SampleError};
use bouncing_balls::particle::MAX_TICKS;
use bouncing_balls::sim::{Control, FrameClock, SimState, Simulation};
use bouncing_balls::spawn::{check_config, generate, random_particle, SpawnConfig, SpawnError};

fn white() -> Rgba {
    Rgba { r: 255, g: 255, b: 255, a: 255 }
}

fn ball(x: i64, y: i64, vx: i64, vy: i64, radius: i64) -> Particle {
    Particle {
        position: Vector { x, y },
        velocity: Vector { x: vx, y: vy },
        radius,
        color: white(),
    }
}

fn square(h: i64) -> Viewport {
    Viewport { half_width: h, half_height: h }
}

fn config(speed: i64) -> SpawnConfig {
    SpawnConfig {
        speed_bound: Vector { x: speed, y: speed },
        radius_min: 5,
        radius_max: 20,
        radius_scale: 1,
        dead_zone: 5,
    }
}

#[test]
fn dead_zone_is_avoided() {
    let mut rng = rand::rng();
    for _ in 0..2000 {
        let v = non_zero_rand(&mut rng, -20, 20, 5).unwrap();
        assert!(v <= -5 || v >= 5);
        assert!(-20 <= v && v < 20);
    }
}

#[test]
fn dead_zone_with_one_sided_range() {
    let mut rng = rand::rng();
    for _ in 0..500 {
        let v = non_zero_rand(&mut rng, -3, 20, 5).unwrap();
        assert!(5 <= v && v < 20);
        let w = non_zero_rand(&mut rng, -20, 3, 5).unwrap();
        assert!(-20 <= w && w <= -5);
    }
}

#[test]
fn dead_zone_draws_vary() {
    let mut rng = rand::rng();
    let first = non_zero_rand(&mut rng, -1_000_000, 1_000_000, 5).unwrap();
    let mut differs = false;
    for _ in 0..100 {
        if non_zero_rand(&mut rng, -1_000_000, 1_000_000, 5).unwrap() != first {
            differs = true;
        }
    }
    assert!(differs);
}

#[test]
fn sample_errors() {
    let mut rng = rand::rng();
    assert_eq!(non_zero_rand(&mut rng, 10, 10, 5), Err(SampleError::EmptyRange));
    assert_eq!(non_zero_rand(&mut rng, -10, 10, -1), Err(SampleError::NegativeThreshold));
    assert_eq!(non_zero_rand(&mut rng, -3, 4, 5), Err(SampleError::DeadZoneCoversRange));
    assert_eq!(non_zero_rand(&mut rng, -5, 5, 5), Err(SampleError::DeadZoneCoversRange));
}

#[test]
fn reflects_off_right_wall() {
    let mut p = ball(50, 0, 200, 0, 10);
    advance_particle(&mut p, &square(100), 1);
    assert_eq!(p.position, Vector { x: 90, y: 0 });
    assert_eq!(p.velocity, Vector { x: -200, y: 0 });
}

#[test]
fn reflects_off_left_and_bottom_walls() {
    let mut p = ball(-50, -60, -200, -300, 10);
    advance_particle(&mut p, &square(100), 1);
    assert_eq!(p.position, Vector { x: -90, y: -90 });
    assert_eq!(p.velocity, Vector { x: 200, y: 300 });
}

#[test]
fn reflects_off_top_wall_symmetrically() {
    let mut p = ball(0, 80, 0, 40, 10);
    advance_particle(&mut p, &square(100), 1);
    assert_eq!(p.position, Vector { x: 0, y: 90 });
    assert_eq!(p.velocity, Vector { x: 0, y: -40 });
}

#[test]
fn free_flight_moves_by_velocity_times_dt() {
    let mut p = ball(3, -4, 7, -2, 10);
    advance_particle(&mut p, &square(100), 5);
    assert_eq!(p.position, Vector { x: 38, y: -14 });
    assert_eq!(p.velocity, Vector { x: 7, y: -2 });
    assert_eq!(p.radius, 10);
    assert_eq!(p.color, white());
}

#[test]
fn landing_on_the_limit_is_not_a_reflection() {
    let mut p = ball(80, 0, 10, 0, 10);
    advance_particle(&mut p, &square(100), 1);
    assert_eq!(p.position.x, 90);
    assert_eq!(p.velocity.x, 10);
}

#[test]
fn zero_ticks_leave_particle_in_place() {
    let mut p = ball(12, 34, 500, -500, 3);
    advance_particle(&mut p, &square(100), 0);
    assert_eq!(p, ball(12, 34, 500, -500, 3));
}

#[test]
fn containment_over_many_frames() {
    let mut rng = rand::rng();
    let vp = Viewport { half_width: 400, half_height: 300 };
    let mut ps = generate(&mut rng, 200, &vp, &config(300)).unwrap();
    for _ in 0..50 {
        advance(&mut ps, &vp, 1);
        for p in &ps {
            assert!(-vp.half_width + p.radius <= p.position.x);
            assert!(p.position.x <= vp.half_width - p.radius);
            assert!(-vp.half_height + p.radius <= p.position.y);
            assert!(p.position.y <= vp.half_height - p.radius);
        }
    }
}

#[test]
fn reflection_keeps_speed_magnitude() {
    let mut rng = rand::rng();
    let vp = square(100);
    let mut ps = generate(&mut rng, 100, &vp, &config(1000)).unwrap();
    let before = ps.clone();
    advance(&mut ps, &vp, 1);
    for (a, b) in before.iter().zip(ps.iter()) {
        assert_eq!(a.velocity.x.abs(), b.velocity.x.abs());
        assert_eq!(a.velocity.y.abs(), b.velocity.y.abs());
    }
}

#[test]
fn generate_gives_exact_count() {
    let mut rng = rand::rng();
    let vp = square(100);
    let mut ps = generate(&mut rng, 37, &vp, &config(100)).unwrap();
    assert_eq!(ps.len(), 37);
    for _ in 0..10 {
        advance(&mut ps, &vp, 2);
    }
    assert_eq!(ps.len(), 37);
    assert_eq!(generate(&mut rng, 0, &vp, &config(100)).unwrap().len(), 0);
}

#[test]
fn generated_particles_respect_ranges() {
    let mut rng = rand::rng();
    let vp = Viewport { half_width: 640, half_height: 360 };
    let cfg = SpawnConfig {
        speed_bound: Vector { x: 640, y: 360 },
        radius_min: 5,
        radius_max: 20,
        radius_scale: 1,
        dead_zone: 5,
    };
    for p in generate(&mut rng, 500, &vp, &cfg).unwrap() {
        assert!(-640 <= p.position.x && p.position.x < 640);
        assert!(-360 <= p.position.y && p.position.y < 360);
        assert!(p.velocity.x.abs() >= 5 && -640 <= p.velocity.x && p.velocity.x < 640);
        assert!(p.velocity.y.abs() >= 5 && -360 <= p.velocity.y && p.velocity.y < 360);
        assert!(5 <= p.radius && p.radius < 20);
        assert!(p.color.a >= 128);
        assert_eq!(p.mass(), p.radius);
    }
}

#[test]
fn spawn_errors() {
    let mut rng = rand::rng();
    let bad_vp = Viewport { half_width: 0, half_height: 100 };
    assert_eq!(generate(&mut rng, 3, &bad_vp, &config(100)), Err(SpawnError::InvalidViewport));
    let mut cfg = config(100);
    cfg.radius_min = 0;
    assert_eq!(generate(&mut rng, 3, &square(100), &cfg), Err(SpawnError::InvalidRadiusRange));
    cfg.radius_min = 20;
    assert_eq!(check_config(&square(100), &cfg), Err(SpawnError::InvalidRadiusRange));
    assert_eq!(check_config(&square(100), &config(5)), Err(SpawnError::InvalidSpeedBound));
    assert_eq!(generate(&mut rng, 0, &square(100), &config(4)), Err(SpawnError::InvalidSpeedBound));
    assert_eq!(check_config(&square(100), &config(6)), Ok(()));
}

#[test]
fn viewport_validity() {
    assert!(square(1).is_valid());
    assert!(!square(0).is_valid());
    assert!(!Viewport { half_width: 5, half_height: -5 }.is_valid());
}

#[test]
fn forced_velocity_bounces_back() {
    let mut rng = rand::rng();
    let vp = square(100);
    let mut ps = generate(&mut rng, 1, &vp, &config(100)).unwrap();
    assert_eq!(ps.len(), 1);
    ps[0].velocity = Vector { x: 200, y: 0 };
    advance(&mut ps, &vp, 1);
    let p = ps[0];
    assert!(-100 + p.radius <= p.position.x && p.position.x <= 100 - p.radius);
    assert!(p.velocity.x < 0);
    assert_eq!(p.velocity.x, -200);
}

#[test]
fn paused_frame_keeps_particles() {
    let mut rng = rand::rng();
    let vp = square(100);
    let mut sim = Simulation::new(generate(&mut rng, 50, &vp, &config(100)).unwrap());
    sim.frame(&vp, 1);
    sim.handle(Control::TogglePause);
    assert_eq!(sim.state, SimState::Paused);
    let before = sim.particles.clone();
    for _ in 0..5 {
        sim.frame(&vp, 3);
    }
    assert_eq!(sim.particles, before);
    sim.handle(Control::TogglePause);
    assert_eq!(sim.state, SimState::Running);
}

#[test]
fn running_frame_advances() {
    let mut sim = Simulation::new(vec![ball(0, 0, 3, 4, 2)]);
    sim.frame(&square(100), 2);
    assert_eq!(sim.particles[0].position, Vector { x: 6, y: 8 });
}

#[test]
fn controls_toggle_their_own_field() {
    let mut sim = Simulation::new(vec![]);
    assert!(!sim.fps_hidden && sim.keep_running && sim.state == SimState::Running);
    sim.handle(Control::ToggleFps);
    assert!(sim.fps_hidden && sim.keep_running && sim.state == SimState::Running);
    sim.handle(Control::ToggleFps);
    assert!(!sim.fps_hidden);
    sim.handle(Control::Exit);
    assert!(!sim.keep_running && sim.state == SimState::Running);
    assert_eq!(SimState::Paused.toggled(), SimState::Running);
}

#[test]
fn one_random_particle() {
    let mut rng = rand::rng();
    let p = random_particle(&mut rng, &square(50), &config(30));
    assert!(-50 <= p.position.x && p.position.x < 50);
    assert!(p.velocity.x.abs() >= 5 && p.velocity.y.abs() >= 5);
}

#[test]
fn clock_carries_partial_ticks() {
    let mut clock = FrameClock::new();
    assert_eq!(clock.ticks(2500), 2);
    assert_eq!(clock.carry_micros, 500);
    assert_eq!(clock.ticks(700), 1);
    assert_eq!(clock.carry_micros, 200);
    assert_eq!(clock.ticks(0), 0);
    assert_eq!(clock.carry_micros, 200);
}

#[test]
fn clock_caps_huge_frames() {
    let mut clock = FrameClock::new();
    assert_eq!(clock.ticks(u64::MAX), MAX_TICKS);
    assert_eq!(clock.carry_micros, 0);
}

#[test]
fn draw_outside_dead_zone_is_kept() {
    assert_eq!(resolve_draw(-100, 100, 5, 42), Draw::Done(42));
    assert_eq!(resolve_draw(-100, 100, 5, -5), Draw::Done(-5));
    assert_eq!(resolve_draw(-100, 100, 5, 5), Draw::Done(5));
}

#[test]
fn negative_draw_is_redrawn_below() {
    // A first draw of -2 is redrawn from [-100, -5); that second draw, say
    // -42, is the result.
    assert_eq!(resolve_draw(-100, 100, 5, -2), Draw::Redraw(-100, -5));
}

#[test]
fn non_negative_draw_is_redrawn_above() {
    assert_eq!(resolve_draw(-100, 100, 5, 0), Draw::Redraw(5, 100));
    assert_eq!(resolve_draw(-100, 100, 5, 4), Draw::Redraw(5, 100));
}

#[test]
fn empty_far_side_falls_back_to_threshold() {
    assert_eq!(resolve_draw(-3, 20, 5, -1), Draw::Done(5));
    assert_eq!(resolve_draw(-5, 20, 5, -1), Draw::Done(5));
    assert_eq!(resolve_draw(-20, 3, 5, 1), Draw::Done(-5));
    assert_eq!(resolve_draw(-20, 5, 5, 0), Draw::Done(-5));
}

#[test]
fn zero_threshold_keeps_every_draw() {
    assert_eq!(resolve_draw(-10, 10, 0, 0), Draw::Done(0));
}

#[test]
fn radius_is_a_whole_multiple_of_scale() {
    let mut rng = rand::rng();
    let vp = square(100_000);
    let cfg = SpawnConfig {
        speed_bound: Vector { x: 100, y: 100 },
        radius_min: 5,
        radius_max: 20,
        radius_scale: 1000,
        dead_zone: 5,
    };
    for p in generate(&mut rng, 200, &vp, &cfg).unwrap() {
        assert_eq!(p.radius % 1000, 0);
        assert!(5000 <= p.radius && p.radius <= 19000);
    }
    let mut bad = cfg;
    bad.radius_scale = 0;
    assert_eq!(check_config(&vp, &bad), Err(SpawnError::InvalidRadiusRange));
    bad.radius_scale = 1_000_000_000;
    assert_eq!(check_config(&vp, &bad), Err(SpawnError::InvalidRadiusRange));
}
