use intensity_patterns::{
    Constant, Linear, Pattern, Pause, Random, RandomEvery, RandomWalk, SawWave, SineWave,
    SquareWave, TriangleWave, UNIT,
};

#[test]
fn pause_is_silent_for_its_duration() {
    let mut p = Pattern::Pause(Pause::new(700));
    assert_eq!(p.duration(), 700);
    assert_eq!(p.sample(0, 0), 0);
    assert_eq!(p.sample(350, 0), 0);
}

#[test]
fn constant_holds_its_level() {
    let mut p = Pattern::Constant(Constant::new(UNIT / 4, 1000));
    assert_eq!(p.duration(), 1000);
    assert_eq!(p.sample(0, 0), 250_000);
    assert_eq!(p.sample(999, 0), 250_000);
}

#[test]
fn linear_ramps_up_and_down() {
    let mut up = Pattern::Linear(Linear::new(0, UNIT, 1000));
    assert_eq!(up.duration(), 1000);
    assert_eq!(up.sample(0, 0), 0);
    assert_eq!(up.sample(250, 0), 250_000);
    assert_eq!(up.sample(1000, 0), UNIT);
    let mut down = Pattern::Linear(Linear::new(UNIT, 0, 1000));
    assert_eq!(down.sample(250, 0), 750_000);
    assert_eq!(down.sample(333, 0), 667_000);
}

#[test]
fn linear_of_zero_length_stays_at_start() {
    let l = Linear::new(123, 456, 0);
    assert_eq!(l.sample(10), 123);
}

#[test]
fn saw_rises_within_each_cycle() {
    let w = SawWave::new(UNIT, 1000);
    assert_eq!(w.sample(0), 0);
    assert_eq!(w.sample(250), 250_000);
    assert_eq!(w.sample(999), 999_000);
    assert_eq!(w.sample(1250), 250_000);
    let half = SawWave::new(UNIT / 2, 1000);
    assert_eq!(half.sample(500), 250_000);
}

#[test]
fn triangle_rises_then_falls() {
    let w = TriangleWave::new(UNIT, 1000);
    assert_eq!(w.sample(0), 0);
    assert_eq!(w.sample(250), 500_000);
    assert_eq!(w.sample(500), UNIT);
    assert_eq!(w.sample(750), 500_000);
    assert_eq!(w.sample(1000), 0);
}

#[test]
fn square_is_high_for_the_first_half() {
    let w = SquareWave::new(UNIT, 1000);
    assert_eq!(w.sample(0), UNIT);
    assert_eq!(w.sample(499), UNIT);
    assert_eq!(w.sample(500), 0);
    assert_eq!(w.sample(999), 0);
    assert_eq!(w.sample(1000), UNIT);
}

#[test]
fn sine_starts_at_its_minimum_and_peaks_half_way() {
    let w = SineWave::new(UNIT, 1000);
    assert_eq!(w.sample(0), 0);
    assert_eq!(w.sample(125), 147_119);
    assert_eq!(w.sample(250), 498_269);
    assert_eq!(w.sample(500), UNIT);
    assert_eq!(w.sample(750), 498_269);
    assert_eq!(w.sample(1000), 0);
}

#[test]
fn waves_of_zero_wavelength_are_silent() {
    assert_eq!(SawWave::new(UNIT, 0).sample(5), 0);
    assert_eq!(TriangleWave::new(UNIT, 0).sample(5), 0);
    assert_eq!(SquareWave::new(UNIT, 0).sample(5), 0);
    assert_eq!(SineWave::new(UNIT, 0).sample(5), 0);
}

#[test]
fn wave_duration_is_its_wavelength() {
    assert_eq!(Pattern::SineWave(SineWave::new(UNIT, 640)).duration(), 640);
    assert_eq!(Pattern::SawWave(SawWave::new(UNIT, 320)).duration(), 320);
}

#[test]
fn random_draws_stay_in_range_and_vary() {
    let mut g = Random::new(0, UNIT, 5000);
    let mut first = None;
    let mut varied = false;
    for _ in 0..200 {
        let v = g.sample();
        assert!((0..UNIT).contains(&v));
        assert_eq!(g.current, v);
        match first {
            None => first = Some(v),
            Some(f) => varied |= f != v,
        }
    }
    assert!(varied);
    let mut p = Pattern::Random(Random::new(10, 20, 5000));
    assert_eq!(p.duration(), 5000);
    let v = p.sample(0, 0);
    assert!((10..20).contains(&v));
}

#[test]
fn random_over_an_empty_range_gives_its_start() {
    let mut g = Random::new(5, 5, 100);
    assert_eq!(g.sample(), 5);
}

#[test]
fn random_every_holds_until_its_interval_passes() {
    let mut g = RandomEvery::new(0, UNIT, 10_000, 100);
    assert_eq!(g.last_draw_ms, 0);
    let v0 = g.last_value;
    assert!((0..UNIT).contains(&v0));
    assert!(!g.is_due(100));
    assert_eq!(g.sample(50), v0);
    assert_eq!(g.sample(100), v0);
    assert_eq!(g.last_draw_ms, 0);
    assert!(g.is_due(101));
    let v1 = g.sample(150);
    assert_eq!(g.last_draw_ms, 150);
    assert!((0..UNIT).contains(&v1));
    assert_eq!(g.sample(200), v1);
    g.reset();
    assert_eq!(g.last_draw_ms, 0);
}

#[test]
fn random_walk_steps_by_the_candidate() {
    let w = RandomWalk::new(0, UNIT, 100, 50, 1000);
    assert_eq!(w.state, 0);
    assert_eq!(w.walk_step(500), 100);
    assert_eq!(w.walk_step(0), 0);
    let mid = RandomWalk { state: 400, ..w };
    assert_eq!(mid.walk_step(900), 500);
    assert_eq!(mid.walk_step(100), 350);
    let top = RandomWalk { state: UNIT - 10, ..w };
    assert_eq!(top.walk_step(UNIT - 1), UNIT);
}

#[test]
fn random_walk_samples_stay_in_range() {
    let mut w = RandomWalk::new(0, UNIT, 1000, 1000, 1000);
    for _ in 0..100 {
        let v = w.sample();
        assert!((0..=UNIT).contains(&v));
        assert_eq!(w.state, v);
    }
}

#[test]
fn random_walk_reset_twice_stays_at_zero() {
    let mut p = Pattern::RandomWalk(RandomWalk::new(0, UNIT, 200_000, 1, 1000));
    for t in 0..20 {
        p.sample(t, t);
    }
    p.reset();
    match &p {
        Pattern::RandomWalk(w) => assert_eq!(w.state, 0),
        _ => unreachable!(),
    }
    p.reset();
    match &p {
        Pattern::RandomWalk(w) => assert_eq!(w.state, 0),
        _ => unreachable!(),
    }
}
