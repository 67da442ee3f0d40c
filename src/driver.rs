//! The decisions of the driver: which pattern plays on which actuator, what
//! each tick sends, and when a run ends. The caller performs the device I/O
//! and the waiting between ticks.

use vstd::prelude::*;
use crate::error::ConfigError;
use crate::fixed::{clamp_spec, time_from_wide, time_of, MAX_TIME, UNIT};
use crate::overrides::OverrideTable;
use crate::pattern::{lemma_duration_range, Pattern};

verus! {

pub const DEFAULT_TICKRATE_HZ: u64 = 10;

/// A connected device as enumerated at one tick: its index and the indices
/// of its vibrating actuators.
pub struct DeviceInfo {
    pub index: u32,
    pub actuators: Vec<u32>,
}

/// The intensity to send to one actuator, in `[0, UNIT]`.
pub struct ActuatorLevel {
    pub actuator: u32,
    pub level: i32,
}

/// The command for one device at one tick.
pub struct DeviceCommand {
    pub device: u32,
    pub levels: Vec<ActuatorLevel>,
}

/// Which pattern an actuator follows.
#[derive(Clone, Copy, Debug, PartialEq, Eq, Structural)]
pub enum Source {
    /// Its own override.
    Actuator,
    /// The override of its device.
    Device,
    /// The global pattern.
    Global,
}

/// The key of the override for one actuator of one device.
pub open spec fn actuator_key(device: u32, actuator: u32) -> u64 {
    (device * 0x1_0000_0000 + actuator) as u64
}

pub fn actuator_key_of(device: u32, actuator: u32) -> (r: u64)
    ensures
        r == actuator_key(device, actuator),
{
    assert(device * 0x1_0000_0000 + actuator <= 0xffff_ffff_ffff_ffff) by (nonlinear_arith)
        requires device <= 0xffff_ffff, actuator <= 0xffff_ffff;
    device as u64 * 0x1_0000_0000 + actuator as u64
}

/// A sampled intensity brought into the range a device accepts.
pub open spec fn command_level(v: int) -> int {
    clamp_spec(v, 0, UNIT as int)
}

pub fn command_level_of(v: i32) -> (r: i32)
    ensures
        r == command_level(v as int),
{
    if v < 0 {
        0
    } else if v > UNIT {
        UNIT
    } else {
        v
    }
}

/// Owns a global pattern and the overrides by device and by actuator, and
/// decides what every tick of a run sends.
pub struct Driver {
    tickrate_hz: u64,
    pattern: Pattern,
    device_overrides: OverrideTable,
    actuator_overrides: OverrideTable,
    running: bool,
}

impl Driver {
    pub closed spec fn wf(&self) -> bool {
        &&& 1 <= self.tickrate_hz
        &&& self.device_overrides.wf()
        &&& self.actuator_overrides.wf()
    }

    pub closed spec fn tickrate_spec(&self) -> u64 {
        self.tickrate_hz
    }

    pub closed spec fn global(&self) -> Pattern {
        self.pattern
    }

    /// Overrides by device, keyed by the device index.
    pub closed spec fn device_overrides(&self) -> Map<u64, Pattern> {
        self.device_overrides@
    }

    /// Overrides by actuator, keyed by `actuator_key`.
    pub closed spec fn actuator_overrides(&self) -> Map<u64, Pattern> {
        self.actuator_overrides@
    }

    /// A run has begun and not yet finished.
    pub closed spec fn is_running(&self) -> bool {
        self.running
    }

    /// The most specific pattern that applies: the actuator's own override,
    /// else its device's, else the global pattern.
    pub open spec fn source(&self, device: u32, actuator: u32) -> Source {
        if self.actuator_overrides().contains_key(actuator_key(device, actuator)) {
            Source::Actuator
        } else if self.device_overrides().contains_key(device as u64) {
            Source::Device
        } else {
            Source::Global
        }
    }

    pub open spec fn resolved(&self, device: u32, actuator: u32) -> Pattern {
        match self.source(device, actuator) {
            Source::Actuator => self.actuator_overrides()[actuator_key(device, actuator)],
            Source::Device => self.device_overrides()[device as u64],
            Source::Global => self.global(),
        }
    }

    /// Everything but the global pattern is as in `other`.
    pub open spec fn same_but_global(&self, other: Driver) -> bool {
        &&& self.wf()
        &&& self.tickrate_spec() == other.tickrate_spec()
        &&& self.device_overrides() == other.device_overrides()
        &&& self.actuator_overrides() == other.actuator_overrides()
        &&& self.is_running() == other.is_running()
    }

    /// Everything but the override maps is as in `other`.
    pub open spec fn same_but_overrides(&self, other: Driver) -> bool {
        &&& self.wf()
        &&& self.tickrate_spec() == other.tickrate_spec()
        &&& self.global() == other.global()
        &&& self.is_running() == other.is_running()
    }

    /// A driver for `pattern` at the default tick rate, with no overrides.
    pub fn new(pattern: Pattern) -> (r: Driver)
        ensures
            r.wf(),
            r.tickrate_spec() == DEFAULT_TICKRATE_HZ,
            r.global() == pattern,
            r.device_overrides() == Map::<u64, Pattern>::empty(),
            r.actuator_overrides() == Map::<u64, Pattern>::empty(),
            !r.is_running(),
    {
        Driver {
            tickrate_hz: DEFAULT_TICKRATE_HZ,
            pattern,
            device_overrides: OverrideTable::new(),
            actuator_overrides: OverrideTable::new(),
            running: false,
        }
    }

    /// Sets the tick rate; a rate of zero is refused and leaves the driver as
    /// it was.
    pub fn set_tickrate(&mut self, hz: u64) -> (r: Result<(), ConfigError>)
        requires
            old(self).wf(),
        ensures
            final(self).wf(),
            hz == 0 ==> r == Err::<(), ConfigError>(ConfigError::ZeroTickRate),
            hz > 0 ==> r == Ok::<(), ConfigError>(()),
            r is Ok ==> final(self).tickrate_spec() == hz,
            r is Err ==> final(self).tickrate_spec() == old(self).tickrate_spec(),
            final(self).global() == old(self).global(),
            final(self).device_overrides() == old(self).device_overrides(),
            final(self).actuator_overrides() == old(self).actuator_overrides(),
            final(self).is_running() == old(self).is_running(),
    {
        if hz == 0 {
            Err(ConfigError::ZeroTickRate)
        } else {
            self.tickrate_hz = hz;
            Ok(())
        }
    }

    pub fn tickrate(&self) -> (r: u64)
        ensures
            r == self.tickrate_spec(),
    {
        self.tickrate_hz
    }

    /// When tick `k` of a run is due, in milliseconds from its start: `k`
    /// ticks of `1 / rate` seconds, rounded down, so the schedule never
    /// drifts from the rate.
    pub fn tick_time_ms(&self, k: u64) -> (r: u64)
        requires
            self.wf(),
        ensures
            r == tick_time(k as int, self.tickrate_spec() as int),
    {
        time_from_wide((k as i128 * 1000) / (self.tickrate_hz as i128))
    }

    /// Replaces the global pattern.
    pub fn set_pattern(&mut self, pattern: Pattern)
        requires
            old(self).wf(),
        ensures
            final(self).same_but_global(*old(self)),
            final(self).global() == pattern,
    {
        self.pattern = pattern;
    }

    pub fn set_device_override(&mut self, device: u32, pattern: Pattern)
        requires
            old(self).wf(),
        ensures
            final(self).same_but_overrides(*old(self)),
            final(self).device_overrides() == old(self).device_overrides().insert(
                device as u64,
                pattern,
            ),
            final(self).actuator_overrides() == old(self).actuator_overrides(),
    {
        self.device_overrides.set(device as u64, pattern);
    }

    pub fn remove_device_override(&mut self, device: u32) -> (r: Option<Pattern>)
        requires
            old(self).wf(),
        ensures
            final(self).same_but_overrides(*old(self)),
            final(self).device_overrides() == old(self).device_overrides().remove(device as u64),
            final(self).actuator_overrides() == old(self).actuator_overrides(),
            r == (if old(self).device_overrides().contains_key(device as u64) {
                Some(old(self).device_overrides()[device as u64])
            } else {
                None
            }),
    {
        self.device_overrides.remove(device as u64)
    }

    pub fn set_actuator_override(&mut self, device: u32, actuator: u32, pattern: Pattern)
        requires
            old(self).wf(),
        ensures
            final(self).same_but_overrides(*old(self)),
            final(self).actuator_overrides() == old(self).actuator_overrides().insert(
                actuator_key(device, actuator),
                pattern,
            ),
            final(self).device_overrides() == old(self).device_overrides(),
    {
        let k = actuator_key_of(device, actuator);
        self.actuator_overrides.set(k, pattern);
    }

    pub fn remove_actuator_override(&mut self, device: u32, actuator: u32) -> (r: Option<Pattern>)
        requires
            old(self).wf(),
        ensures
            final(self).same_but_overrides(*old(self)),
            final(self).actuator_overrides() == old(self).actuator_overrides().remove(
                actuator_key(device, actuator),
            ),
            final(self).device_overrides() == old(self).device_overrides(),
            r == (if old(self).actuator_overrides().contains_key(actuator_key(device, actuator)) {
                Some(old(self).actuator_overrides()[actuator_key(device, actuator)])
            } else {
                None
            }),
    {
        let k = actuator_key_of(device, actuator);
        self.actuator_overrides.remove(k)
    }

    /// Which pattern the actuator follows.
    pub fn resolve(&self, device: u32, actuator: u32) -> (r: Source)
        requires
            self.wf(),
        ensures
            r == self.source(device, actuator),
    {
        let k = actuator_key_of(device, actuator);
        if self.actuator_overrides.contains(k) {
            Source::Actuator
        } else if self.device_overrides.contains(device as u64) {
            Source::Device
        } else {
            Source::Global
        }
    }

    /// Starts a run: resets the global pattern and every override, so that
    /// stateful generators begin from a known state.
    pub fn begin_run(&mut self)
        requires
            old(self).wf(),
        ensures
            final(self).wf(),
            final(self).is_running(),
            final(self).tickrate_spec() == old(self).tickrate_spec(),
            old(self).global().reset_to(final(self).global()),
            final(self).device_overrides().dom() == old(self).device_overrides().dom(),
            forall|k: u64| #[trigger]
                old(self).device_overrides().contains_key(k) ==> old(
                    self,
                ).device_overrides()[k].reset_to(final(self).device_overrides()[k]),
            final(self).actuator_overrides().dom() == old(self).actuator_overrides().dom(),
            forall|k: u64| #[trigger]
                old(self).actuator_overrides().contains_key(k) ==> old(
                    self,
                ).actuator_overrides()[k].reset_to(final(self).actuator_overrides()[k]),
    {
        self.pattern.reset();
        self.device_overrides.reset_all();
        self.actuator_overrides.reset_all();
        self.running = true;
    }

    /// Whether tick `k` of a run, measured at `elapsed_ms`, goes on: the
    /// caller still wants it to, the tick is due within the global pattern's
    /// duration, and the elapsed time has not passed that duration.
    pub fn should_continue(&self, k: u64, elapsed_ms: u64, keep_running: bool) -> (r: bool)
        requires
            self.wf(),
        ensures
            r == continues(
                self.global().spec_duration(),
                self.tickrate_spec() as int,
                k as int,
                elapsed_ms as int,
                keep_running,
            ),
    {
        let d = self.pattern.duration();
        assert(0 <= d * self.tickrate_hz <= 0xffff_ffff_ffff_ffff * 0xffff_ffff_ffff_ffff)
            by (nonlinear_arith)
            requires
                0 <= d <= 0xffff_ffff_ffff_ffff,
                0 <= self.tickrate_hz <= 0xffff_ffff_ffff_ffff,
        ;
        keep_running && (k as u128) * 1000 <= (d as u128) * (self.tickrate_hz as u128)
            && elapsed_ms <= d
    }

    /// Ends the run. Returns whether a stop-all command must be issued now:
    /// exactly when a run was in progress.
    pub fn finish(&mut self) -> (stop_all: bool)
        ensures
            finished(*old(self), *final(self), stop_all),
            final(self).tickrate_spec() == old(self).tickrate_spec(),
            final(self).global() == old(self).global(),
            final(self).device_overrides() == old(self).device_overrides(),
            final(self).actuator_overrides() == old(self).actuator_overrides(),
            old(self).wf() ==> final(self).wf(),
    {
        let stop_all = self.running;
        self.running = false;
        stop_all
    }
}

impl Driver {
    /// The level for one actuator: the value at `t` of the pattern it follows,
    /// with `global_level` already holding the global pattern's.
    fn level_for(&self, device: u32, actuator: u32, global_level: i32, elapsed_ms: u64) -> (r: i32)
        requires
            self.wf(),
            global_level == self.global().value(elapsed_ms as int),
        ensures
            r == command_level(self.resolved(device, actuator).value(elapsed_ms as int)),
    {
        let k = actuator_key_of(device, actuator);
        if self.actuator_overrides.contains(k) {
            command_level_of(self.actuator_overrides.value_of(k, elapsed_ms))
        } else if self.device_overrides.contains(device as u64) {
            command_level_of(self.device_overrides.value_of(device as u64, elapsed_ms))
        } else {
            command_level_of(global_level)
        }
    }

    /// One tick at `elapsed_ms` into the run. The global pattern and every
    /// override are sampled once, at `elapsed_ms`: each randomized leaf draws
    /// once per tick, and everything that follows one pattern in a tick sees
    /// the same sample of it. The result has one command per device, in the
    /// order given, with one level per actuator, in the order given: the value
    /// of the pattern that actuator follows, in its new state.
    pub fn tick(&mut self, elapsed_ms: u64, devices: &Vec<DeviceInfo>) -> (cmds: Vec<DeviceCommand>)
        requires
            old(self).wf(),
        ensures
            final(self).wf(),
            final(self).tickrate_spec() == old(self).tickrate_spec(),
            final(self).is_running() == old(self).is_running(),
            old(self).global().stepped(final(self).global(), elapsed_ms as int, elapsed_ms as int),
            final(self).device_overrides().dom() == old(self).device_overrides().dom(),
            forall|k: u64| #[trigger]
                old(self).device_overrides().contains_key(k) ==> old(
                    self,
                ).device_overrides()[k].stepped(
                    final(self).device_overrides()[k],
                    elapsed_ms as int,
                    elapsed_ms as int,
                ),
            final(self).actuator_overrides().dom() == old(self).actuator_overrides().dom(),
            forall|k: u64| #[trigger]
                old(self).actuator_overrides().contains_key(k) ==> old(
                    self,
                ).actuator_overrides()[k].stepped(
                    final(self).actuator_overrides()[k],
                    elapsed_ms as int,
                    elapsed_ms as int,
                ),
            forall|d: u32, a: u32| #[trigger] final(self).source(d, a) == old(self).source(d, a),
            cmds@.len() == devices@.len(),
            forall|i: int|
                0 <= i < cmds@.len() ==> (#[trigger] cmds@[i]).device == devices@[i].index
                    && cmds@[i].levels@.len() == devices@[i].actuators@.len(),
            forall|i: int, j: int|
                0 <= i < cmds@.len() && 0 <= j < cmds@[i].levels@.len() ==> {
                    &&& (#[trigger] cmds@[i].levels@[j]).actuator == devices@[i].actuators@[j]
                    &&& cmds@[i].levels@[j].level == command_level(
                        final(self).resolved(devices@[i].index, devices@[i].actuators@[j]).value(
                            elapsed_ms as int,
                        ),
                    )
                },
    {
        self.pattern.step(elapsed_ms, elapsed_ms);
        self.device_overrides.step_all(elapsed_ms, elapsed_ms);
        self.actuator_overrides.step_all(elapsed_ms, elapsed_ms);
        let g = self.pattern.value_at(elapsed_ms);
        let mut cmds: Vec<DeviceCommand> = Vec::new();
        let mut i: usize = 0;
        while i < devices.len()
            invariant
                self.wf(),
                g == self.global().value(elapsed_ms as int),
                i <= devices@.len(),
                cmds@.len() == i,
                forall|x: int|
                    0 <= x < i ==> (#[trigger] cmds@[x]).device == devices@[x].index
                        && cmds@[x].levels@.len() == devices@[x].actuators@.len(),
                forall|x: int, y: int|
                    0 <= x < i && 0 <= y < cmds@[x].levels@.len() ==> {
                        &&& (#[trigger] cmds@[x].levels@[y]).actuator == devices@[x].actuators@[y]
                        &&& cmds@[x].levels@[y].level == command_level(
                            self.resolved(devices@[x].index, devices@[x].actuators@[y]).value(
                                elapsed_ms as int,
                            ),
                        )
                    },
            decreases devices@.len() - i,
        {
            let device = devices[i].index;
            let mut levels: Vec<ActuatorLevel> = Vec::new();
            let mut j: usize = 0;
            while j < devices[i].actuators.len()
                invariant
                    self.wf(),
                    g == self.global().value(elapsed_ms as int),
                    i < devices@.len(),
                    device == devices@[i as int].index,
                    j <= devices@[i as int].actuators@.len(),
                    levels@.len() == j,
                    forall|y: int|
                        0 <= y < j ==> {
                            &&& (#[trigger] levels@[y]).actuator == devices@[i as int].actuators@[y]
                            &&& levels@[y].level == command_level(
                                self.resolved(device, devices@[i as int].actuators@[y]).value(
                                    elapsed_ms as int,
                                ),
                            )
                        },
                decreases devices@[i as int].actuators@.len() - j,
            {
                let a = devices[i].actuators[j];
                let level = self.level_for(device, a, g, elapsed_ms);
                levels.push(ActuatorLevel { actuator: a, level });
                j += 1;
            }
            cmds.push(DeviceCommand { device, levels });
            i += 1;
        }
        cmds
    }
}

/// When tick `k` is due at `rate` ticks per second, in whole milliseconds
/// (rounded down) from the start of the run.
pub open spec fn tick_time(k: int, rate: int) -> int {
    time_of(k * 1000 / rate)
}

/// Tick `k` of a run at `rate` ticks per second, measured at `elapsed`,
/// goes on while the caller wants it to, the tick falls within `duration`
/// (`k / rate` seconds at most `duration` milliseconds), and the elapsed
/// time has not passed `duration`.
pub open spec fn continues(
    duration: int,
    rate: int,
    k: int,
    elapsed: int,
    keep_running: bool,
) -> bool {
    keep_running && k * 1000 <= duration * rate && elapsed <= duration
}

/// `after` is `before` after a call of `finish` that returned `stop_all`: a
/// stop-all is asked for exactly when a run was in progress, and none is then.
pub open spec fn finished(before: Driver, after: Driver, stop_all: bool) -> bool {
    &&& stop_all == before.is_running()
    &&& !after.is_running()
}

/// Override resolution: an actuator with an override of its own follows it,
/// and another actuator of the same device without one follows the device's
/// override rather than the global pattern. Since `tick` sends each actuator
/// the value of the pattern it resolves to, right after that pattern's one
/// sample in the tick, the two get their own override's sample.
pub proof fn resolution_law(drv: Driver, device: u32, first: u32, second: u32)
    requires
        drv.actuator_overrides().contains_key(actuator_key(device, first)),
        !drv.actuator_overrides().contains_key(actuator_key(device, second)),
        drv.device_overrides().contains_key(device as u64),
    ensures
        drv.source(device, first) == Source::Actuator,
        drv.resolved(device, first) == drv.actuator_overrides()[actuator_key(device, first)],
        drv.source(device, second) == Source::Device,
        drv.resolved(device, second) == drv.device_overrides()[device as u64],
{
}

/// Ticks fall at `tick_time(k, rate)` for `k = 0, 1, ...`; when each is
/// measured on time, the ticks that run are those with `k` below
/// `duration * rate / 1000 + 1`, which is `ceil(duration * rate / 1000)` or
/// one more.
pub proof fn tick_count_law(duration: int, rate: int)
    requires
        0 <= duration <= MAX_TIME,
        1 <= rate,
    ensures
        forall|k: int|
            0 <= k ==> (#[trigger] continues(duration, rate, k, tick_time(k, rate), true) <==> k
                < duration * rate / 1000 + 1),
        0 <= (duration * rate / 1000 + 1) - (duration * rate + 999) / 1000 <= 1,
{
    let n = duration * rate;
    assert(0 <= n) by (nonlinear_arith)
        requires n == duration * rate, 0 <= duration, 1 <= rate;
    vstd::arithmetic::div_mod::lemma_fundamental_div_mod(n, 1000);
    assert forall|k: int| 0 <= k implies (#[trigger] continues(
        duration,
        rate,
        k,
        tick_time(k, rate),
        true,
    ) <==> k < n / 1000 + 1) by {
        let q = n / 1000;
        let r = n % 1000;
        if k <= q {
            assert(k * 1000 <= n) by (nonlinear_arith)
                requires k <= q, n == 1000 * q + r, 0 <= r;
            assert(0 <= k * 1000) by (nonlinear_arith)
                requires 0 <= k;
            vstd::arithmetic::div_mod::lemma_div_is_ordered(k * 1000, n, rate);
            vstd::arithmetic::div_mod::lemma_div_multiples_vanish(duration, rate);
            vstd::arithmetic::div_mod::lemma_div_pos_is_pos(k * 1000, rate);
            assert(n == rate * duration) by (nonlinear_arith)
                requires n == duration * rate;
        } else {
            assert(k * 1000 > n) by (nonlinear_arith)
                requires k >= q + 1, n == 1000 * q + r, r < 1000;
        }
    }
    vstd::arithmetic::div_mod::lemma_fundamental_div_mod(n + 999, 1000);
    let q = n / 1000;
    let r = n % 1000;
    let q2 = (n + 999) / 1000;
    let r2 = (n + 999) % 1000;
    assert(q <= q2 <= q + 1) by (nonlinear_arith)
        requires
            n == 1000 * q + r,
            0 <= r < 1000,
            n + 999 == 1000 * q2 + r2,
            0 <= r2 < 1000,
    ;
}

/// However a run ends, and however often `finish` is called after it, the
/// stop-all command is asked for exactly once: by the first call.
pub proof fn stop_once_law(drivers: Seq<Driver>, stops: Seq<bool>)
    requires
        stops.len() >= 1,
        drivers.len() == stops.len() + 1,
        drivers[0].is_running(),
        forall|i: int|
            0 <= i < stops.len() ==> finished(#[trigger] drivers[i], drivers[i + 1], stops[i]),
    ensures
        forall|i: int| 0 <= i < stops.len() ==> #[trigger] stops[i] == (i == 0),
{
    assert forall|i: int| 0 <= i < stops.len() implies #[trigger] stops[i] == (i == 0) by {
        assert(finished(drivers[i], drivers[i + 1], stops[i]));
        if i > 0 {
            assert(finished(drivers[i - 1], drivers[i], stops[i - 1]));
        }
    }
}

} // verus!
