use intensity_patterns::{
    ConfigError, Constant, DeviceCommand, DeviceInfo, Driver, Pattern, RandomWalk, SawWave,
    Source, DEFAULT_TICKRATE_HZ, UNIT,
};

fn constant(level: i32, duration_ms: u64) -> Pattern {
    Pattern::Constant(Constant::new(level, duration_ms))
}

fn device(index: u32, actuators: &[u32]) -> DeviceInfo {
    DeviceInfo { index, actuators: actuators.to_vec() }
}

fn levels(cmd: &DeviceCommand) -> Vec<(u32, i32)> {
    cmd.levels.iter().map(|l| (l.actuator, l.level)).collect()
}

#[test]
fn new_driver_ticks_at_the_default_rate() {
    let d = Driver::new(constant(1, 1000));
    assert_eq!(d.tickrate(), DEFAULT_TICKRATE_HZ);
    assert_eq!(d.tickrate(), 10);
    assert_eq!(d.tick_time_ms(0), 0);
    assert_eq!(d.tick_time_ms(1), 100);
    assert_eq!(d.tick_time_ms(7), 700);
}

#[test]
fn tickrate_zero_is_refused() {
    let mut d = Driver::new(constant(1, 1000));
    assert_eq!(d.set_tickrate(0), Err(ConfigError::ZeroTickRate));
    assert_eq!(d.tickrate(), 10);
    assert_eq!(d.set_tickrate(20), Ok(()));
    assert_eq!(d.tickrate(), 20);
    assert_eq!(d.tick_time_ms(1), 50);
    assert_eq!(d.set_tickrate(2000), Ok(()));
    assert_eq!(d.tickrate(), 2000);
    assert_eq!(d.tick_time_ms(3), 1);
}

#[test]
fn tick_schedule_follows_the_rate_without_drift() {
    let mut d = Driver::new(constant(1, 1000));
    assert_eq!(d.set_tickrate(60), Ok(()));
    assert_eq!(d.tick_time_ms(1), 16);
    assert_eq!(d.tick_time_ms(2), 33);
    assert_eq!(d.tick_time_ms(3), 50);
    assert_eq!(d.tick_time_ms(60), 1000);
    assert_eq!(d.tick_time_ms(u64::MAX), u64::MAX);
}

#[test]
fn actuator_override_beats_device_override_beats_global() {
    let mut d = Driver::new(constant(100_000, 10_000));
    d.set_device_override(1, constant(200_000, 10_000));
    d.set_actuator_override(1, 1, constant(300_000, 10_000));
    assert_eq!(d.resolve(1, 1), Source::Actuator);
    assert_eq!(d.resolve(1, 2), Source::Device);
    assert_eq!(d.resolve(2, 1), Source::Global);
    let devices = vec![device(1, &[1, 2]), device(2, &[1])];
    let cmds = d.tick(0, &devices);
    assert_eq!(cmds.len(), 2);
    assert_eq!(cmds[0].device, 1);
    assert_eq!(levels(&cmds[0]), vec![(1, 300_000), (2, 200_000)]);
    assert_eq!(cmds[1].device, 2);
    assert_eq!(levels(&cmds[1]), vec![(1, 100_000)]);
}

#[test]
fn removing_overrides_falls_back() {
    let mut d = Driver::new(constant(100_000, 10_000));
    d.set_device_override(1, constant(200_000, 10_000));
    d.set_actuator_override(1, 1, constant(300_000, 10_000));
    assert!(d.remove_actuator_override(1, 1).is_some());
    assert!(d.remove_actuator_override(1, 1).is_none());
    assert_eq!(d.resolve(1, 1), Source::Device);
    assert!(d.remove_device_override(1).is_some());
    assert_eq!(d.resolve(1, 1), Source::Global);
    let cmds = d.tick(0, &vec![device(1, &[1])]);
    assert_eq!(levels(&cmds[0]), vec![(1, 100_000)]);
}

#[test]
fn replacing_an_override_keeps_one_entry() {
    let mut d = Driver::new(constant(0, 10_000));
    d.set_device_override(3, constant(200_000, 10_000));
    d.set_device_override(3, constant(400_000, 10_000));
    let cmds = d.tick(0, &vec![device(3, &[0])]);
    assert_eq!(levels(&cmds[0]), vec![(0, 400_000)]);
    assert!(d.remove_device_override(3).is_some());
    assert!(d.remove_device_override(3).is_none());
}

#[test]
fn tick_samples_at_the_elapsed_time() {
    let mut d = Driver::new(Pattern::SawWave(SawWave::new(UNIT, 1000)));
    let devices = vec![device(0, &[0, 1])];
    let cmds = d.tick(250, &devices);
    assert_eq!(levels(&cmds[0]), vec![(0, 250_000), (1, 250_000)]);
}

#[test]
fn tick_clamps_levels_into_the_device_range() {
    let mut d = Driver::new(constant(2 * UNIT, 1000));
    d.set_device_override(1, constant(-5, 1000));
    let cmds = d.tick(0, &vec![device(0, &[0]), device(1, &[0])]);
    assert_eq!(levels(&cmds[0]), vec![(0, UNIT)]);
    assert_eq!(levels(&cmds[1]), vec![(0, 0)]);
}

#[test]
fn tick_with_no_devices_sends_nothing() {
    let mut d = Driver::new(constant(1, 1000));
    assert!(d.tick(0, &Vec::new()).is_empty());
    let cmds = d.tick(0, &vec![device(4, &[])]);
    assert_eq!(cmds.len(), 1);
    assert!(cmds[0].levels.is_empty());
}

#[test]
fn run_continues_until_the_global_duration_passes() {
    let d = Driver::new(constant(1, 1000));
    assert!(d.should_continue(0, 0, true));
    assert!(d.should_continue(10, 1000, true));
    assert!(!d.should_continue(11, 1100, true));
    assert!(!d.should_continue(5, 1001, true));
    assert!(!d.should_continue(0, 0, false));
}

fn ticks_in_a_run(rate: u64, duration_ms: u64) -> u64 {
    let mut d = Driver::new(constant(UNIT, duration_ms));
    assert_eq!(d.set_tickrate(rate), Ok(()));
    d.begin_run();
    let devices = vec![device(0, &[0])];
    let mut ticks = 0u64;
    while d.should_continue(ticks, d.tick_time_ms(ticks), true) {
        d.tick(d.tick_time_ms(ticks), &devices);
        ticks += 1;
    }
    assert!(d.finish());
    ticks
}

#[test]
fn ticks_in_a_run_number_duration_times_rate_within_one() {
    assert_eq!(ticks_in_a_run(10, 1000), 11);
    assert_eq!(ticks_in_a_run(60, 1000), 61);
    assert_eq!(ticks_in_a_run(700, 1000), 701);
    assert_eq!(ticks_in_a_run(2000, 1000), 2001);
    assert_eq!(ticks_in_a_run(7, 1500), 11);
    assert_eq!(ticks_in_a_run(10, 0), 1);
}

#[test]
fn stop_all_is_asked_for_once_per_run() {
    let mut d = Driver::new(constant(1, 1000));
    assert!(!d.finish());
    d.begin_run();
    assert!(d.finish());
    assert!(!d.finish());
    d.begin_run();
    assert!(d.finish());
}

#[test]
fn begin_run_resets_overrides() {
    let mut d = Driver::new(constant(0, 10_000));
    let walk = RandomWalk::new(0, UNIT, UNIT / 2, 0, 10_000);
    d.set_actuator_override(0, 0, Pattern::RandomWalk(walk));
    let devices = vec![device(0, &[0])];
    for t in 0..5 {
        d.tick(t, &devices);
    }
    d.begin_run();
    let removed = d.remove_actuator_override(0, 0).unwrap();
    match removed {
        Pattern::RandomWalk(w) => assert_eq!(w.state, 0),
        _ => unreachable!(),
    }
}

#[test]
fn randomized_override_level_is_its_own_sample() {
    let mut d = Driver::new(constant(0, 10_000));
    d.set_device_override(1, constant(UNIT / 2, 10_000));
    let walk = RandomWalk::new(0, UNIT, UNIT / 10, UNIT / 10, 10_000);
    d.set_actuator_override(1, 1, Pattern::RandomWalk(walk));
    let devices = vec![device(1, &[1, 2])];
    for t in 0..20u64 {
        let cmds = d.tick(t, &devices);
        let walk = d.remove_actuator_override(1, 1).unwrap();
        let state = match &walk {
            Pattern::RandomWalk(w) => w.state,
            _ => unreachable!(),
        };
        assert_eq!(levels(&cmds[0]), vec![(1, state), (2, UNIT / 2)]);
        d.set_actuator_override(1, 1, walk);
    }
}
