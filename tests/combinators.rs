use intensity_patterns::{
    ConfigError, Constant, Pattern, RandomWalk, SawWave, SquareWave, MAX_TIME, UNIT,
};

fn constant(level: i32, duration_ms: u64) -> Pattern {
    Pattern::Constant(Constant::new(level, duration_ms))
}

fn saw() -> Pattern {
    Pattern::SawWave(SawWave::new(UNIT, 1000))
}

#[test]
fn chain_duration_adds_and_second_part_restarts() {
    let mut c = constant(100, 1000).chain(constant(200, 500));
    assert_eq!(c.duration(), 1500);
    assert_eq!(c.sample(0, 0), 100);
    assert_eq!(c.sample(999, 0), 100);
    assert_eq!(c.sample(1000, 0), 200);
    assert_eq!(c.sample(1499, 0), 200);
    let mut waves = saw().chain(saw());
    assert_eq!(waves.duration(), 2000);
    assert_eq!(waves.sample(250, 0), 250_000);
    assert_eq!(waves.sample(1250, 0), 250_000);
}

#[test]
fn chain_duration_saturates() {
    let c = saw().forever().chain(saw());
    assert_eq!(c.duration(), MAX_TIME);
}

#[test]
fn repeat_multiplies_duration_and_is_periodic() {
    let mut r = saw().repeat(3 * UNIT as u32);
    assert_eq!(r.duration(), 3000);
    for k in 0..3u64 {
        assert_eq!(r.sample(k * 1000 + 250, 0), 250_000);
        assert_eq!(r.sample(k * 1000 + 700, 0), 700_000);
    }
}

#[test]
fn repeat_with_fractional_count_ends_part_way() {
    let mut r = saw().repeat(5 * UNIT as u32 / 2);
    assert_eq!(r.duration(), 2500);
    assert_eq!(r.sample(2250, 0), 250_000);
}

#[test]
fn forever_lasts_the_largest_time_and_wraps() {
    let mut f = saw().forever();
    assert_eq!(f.duration(), MAX_TIME);
    assert_eq!(f.sample(10_250, 0), 250_000);
    assert_eq!(f.sample(250, 0), 250_000);
    assert_eq!(f.sample(MAX_TIME, 0), (MAX_TIME % 1000) as i32 * 1000);
}

#[test]
fn crossfade_blends_over_the_overlap() {
    let mut x = constant(0, 1000).crossfade(constant(UNIT, 1000), 500).unwrap();
    assert_eq!(x.duration(), 1500);
    assert_eq!(x.sample(250, 0), 0);
    assert_eq!(x.sample(500, 0), 0);
    assert_eq!(x.sample(750, 0), 500_000);
    assert_eq!(x.sample(900, 0), 800_000);
    assert_eq!(x.sample(1000, 0), UNIT);
    assert_eq!(x.sample(1499, 0), UNIT);
}

#[test]
fn crossfade_continues_the_second_pattern_from_its_start() {
    let mut x = constant(0, 1000).crossfade(saw(), 200).unwrap();
    assert_eq!(x.duration(), 1800);
    assert_eq!(x.sample(1050, 0), 250_000);
}

#[test]
fn crossfade_with_zero_overlap_is_a_chain() {
    let mut x = constant(7, 1000).crossfade(saw(), 0).unwrap();
    let mut c = constant(7, 1000).chain(saw());
    assert_eq!(x.duration(), c.duration());
    for t in [0u64, 500, 999, 1000, 1250, 1999, 2500] {
        assert_eq!(x.sample(t, 0), c.sample(t, 0));
    }
}

#[test]
fn crossfade_refuses_an_overlap_longer_than_the_first_part() {
    let r = constant(0, 300).crossfade(constant(UNIT, 1000), 500);
    assert!(matches!(r, Err(ConfigError::OverlapTooLong)));
}

#[test]
fn crossfade_overlap_may_outlast_the_second_part() {
    let mut x = constant(0, 1000).crossfade(constant(UNIT, 300), 500).unwrap();
    assert_eq!(x.duration(), 800);
    assert_eq!(x.sample(750, 0), 500_000);
}

#[test]
fn average_sum_and_subtract_are_pointwise() {
    let mut avg = constant(300_000, 1000).average(constant(100_000, 2000));
    let mut sum = constant(300_000, 1000).sum(constant(100_000, 2000));
    let mut sub = constant(300_000, 1000).subtract(constant(100_000, 2000));
    assert_eq!(avg.sample(0, 0), 200_000);
    assert_eq!(sum.sample(0, 0), 400_000);
    assert_eq!(sub.sample(0, 0), 200_000);
    assert_eq!(avg.duration(), 2000);
    assert_eq!(sum.duration(), 2000);
    assert_eq!(sub.duration(), 2000);
    let mut waves = saw().average(Pattern::SquareWave(SquareWave::new(UNIT, 1000)));
    assert_eq!(waves.sample(250, 0), 625_000);
    assert_eq!(waves.sample(750, 0), 375_000);
}

#[test]
fn average_rounds_down() {
    let mut avg = constant(-1, 10).average(constant(0, 10));
    assert_eq!(avg.sample(0, 0), -1);
    let mut avg = constant(3, 10).average(constant(0, 10));
    assert_eq!(avg.sample(0, 0), 1);
}

#[test]
fn sum_and_subtract_saturate() {
    let mut sum = constant(i32::MAX, 10).sum(constant(1, 10));
    assert_eq!(sum.sample(0, 0), i32::MAX);
    let mut sub = constant(i32::MIN, 10).subtract(constant(1, 10));
    assert_eq!(sub.sample(0, 0), i32::MIN);
}

#[test]
fn clamp_keeps_levels_in_range() {
    let mut high = constant(3 * UNIT / 2, 10).clamp_valid();
    let mut low = constant(-5, 10).clamp_valid();
    let mut mid = constant(400_000, 10).clamp_valid();
    assert_eq!(high.sample(0, 0), UNIT);
    assert_eq!(low.sample(0, 0), 0);
    assert_eq!(mid.sample(0, 0), 400_000);
    let mut narrow = saw().clamp(200_000, 600_000);
    assert_eq!(narrow.sample(100, 0), 200_000);
    assert_eq!(narrow.sample(400, 0), 400_000);
    assert_eq!(narrow.sample(900, 0), 600_000);
    assert_eq!(narrow.duration(), 1000);
}

#[test]
fn scale_valid_maps_into_the_open_unit_range() {
    assert_eq!(constant(0, 10).scale_valid().sample(0, 0), 500_000);
    assert_eq!(constant(UNIT, 10).scale_valid().sample(0, 0), 732_905);
    assert_eq!(constant(-UNIT, 10).scale_valid().sample(0, 0), 267_094);
    assert_eq!(constant(i32::MAX, 10).scale_valid().sample(0, 0), UNIT - 1);
    assert_eq!(constant(i32::MIN, 10).scale_valid().sample(0, 0), 1);
    let mut walk = Pattern::RandomWalk(RandomWalk::new(-5 * UNIT, 5 * UNIT, UNIT, UNIT, 100))
        .scale_valid();
    for t in 0..50 {
        let v = walk.sample(t, t);
        assert!(0 < v && v < UNIT);
    }
}

#[test]
fn scale_time_samples_at_a_multiple_of_the_time() {
    let mut fast = saw().scale_time(2 * UNIT as u32);
    assert_eq!(fast.duration(), 1000);
    assert_eq!(fast.sample(100, 0), 200_000);
    let mut slow = saw().scale_time(UNIT as u32 / 2);
    assert_eq!(slow.sample(500, 0), 250_000);
}

#[test]
fn scale_intensity_multiplies() {
    let mut p = constant(UNIT / 2, 100).scale_intensity(UNIT / 2);
    assert_eq!(p.sample(0, 0), 250_000);
    let mut p = constant(UNIT / 2, 100).scale_intensity(2 * UNIT);
    assert_eq!(p.sample(0, 0), UNIT);
    assert_eq!(p.duration(), 100);
}

#[test]
fn shift_starts_later_in_the_cycle() {
    let mut s = saw().shift(250);
    assert_eq!(s.duration(), 750);
    assert_eq!(s.sample(0, 0), 250_000);
    assert_eq!(s.sample(500, 0), 750_000);
}

#[test]
fn shift_past_the_end_has_zero_duration() {
    assert_eq!(saw().shift(1000).duration(), 0);
    assert_eq!(saw().shift(5000).duration(), 0);
}

#[test]
fn modulate_multiplies_intensities() {
    let mut m = constant(UNIT / 2, 1000).modulate(saw());
    assert_eq!(m.duration(), 1000);
    assert_eq!(m.sample(500, 0), 250_000);
    assert_eq!(m.sample(0, 0), 0);
}

#[test]
fn reset_returns_nested_walks_to_zero() {
    let walk = Pattern::RandomWalk(RandomWalk::new(0, UNIT, UNIT / 2, 0, 1000));
    let mut p = walk.repeat(2 * UNIT as u32).chain(constant(5, 100));
    for t in 0..10 {
        p.sample(t, t);
    }
    p.reset();
    p.reset();
    match &p {
        Pattern::Chain { first, .. } => match first.as_ref() {
            Pattern::Repeat { pattern, .. } => match pattern.as_ref() {
                Pattern::RandomWalk(w) => assert_eq!(w.state, 0),
                _ => unreachable!(),
            },
            _ => unreachable!(),
        },
        _ => unreachable!(),
    }
}
