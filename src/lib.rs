//! Time-varying intensity patterns built from primitive waveforms and
//! combinators, and the decision logic of a driver that samples them at a
//! fixed tick rate and routes one intensity to each actuator.
//!
//! Time is measured in whole milliseconds (`u64`). Intensities and scale
//! factors are fixed-point integers in which `UNIT` stands for 1.0.

pub mod driver;
pub mod error;
pub mod fixed;
pub mod laws;
pub mod overrides;
pub mod pattern;
pub mod random;
pub mod shape;

pub use driver::{ActuatorLevel, DeviceCommand, DeviceInfo, Driver, Source, DEFAULT_TICKRATE_HZ};
pub use error::ConfigError;
pub use fixed::{MAX_TIME, UNIT};
pub use pattern::Pattern;
pub use random::{Random, RandomEvery, RandomWalk};
pub use shape::{Constant, Linear, Pause, SawWave, SineWave, SquareWave, TriangleWave};
