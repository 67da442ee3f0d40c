//! Configuration errors, reported when a pattern or a driver is set up rather
//! than in the middle of a run.

use vstd::prelude::*;

verus! {

#[derive(Clone, Copy, Debug, PartialEq, Eq, Structural)]
pub enum ConfigError {
    /// A tick rate of zero.
    ZeroTickRate,
    /// A crossfade overlap longer than one of the two patterns it joins.
    OverlapTooLong,
}

} // verus!
