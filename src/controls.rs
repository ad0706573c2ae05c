use vstd::prelude::*;

verus! {

/// Time scale at startup.
pub const BASE_TIMESCALE: u64 = 100;

/// Force magnitude at startup (positive: the pointer attracts).
pub const BASE_FORCE: i64 = 1000;

/// How much the force moves for each frame its key is held.
pub const FORCE_STEP: i64 = 50;

/// The keys held during one frame.
#[derive(Clone, Copy, Debug, PartialEq, Eq, Structural)]
pub struct KeyInput {
    /// Lowers the time scale by one, never below zero.
    pub slow_down: bool,
    /// Raises the time scale by one.
    pub speed_up: bool,
    /// Raises the force by one step (more pull).
    pub raise_force: bool,
    /// Lowers the force by one step (more push).
    pub lower_force: bool,
}

/// Whether the pointer pulls balls in, pushes them away, or does nothing.
#[derive(Clone, Copy, Debug, PartialEq, Eq, Structural)]
pub enum ForceMode {
    Pull,
    Push,
    Off,
}

/// The user-adjustable knobs: the time scale, which is never negative, and
/// the signed force magnitude of the pointer.
#[derive(Clone, Copy, Debug, PartialEq, Eq, Structural)]
pub struct Controls {
    pub timescale: u64,
    pub force: i64,
}

/// The time scale after one frame of `keys`: first lowered (held at zero),
/// then raised (held at `u64::MAX`).
pub open spec fn next_timescale(t: int, keys: KeyInput) -> int {
    let lowered = if keys.slow_down {
        if t > 0 {
            t - 1
        } else {
            0
        }
    } else {
        t
    };
    if keys.speed_up {
        if lowered < u64::MAX {
            lowered + 1
        } else {
            lowered
        }
    } else {
        lowered
    }
}

/// The force after one frame of `keys`: first raised, then lowered, by one
/// step each, held within the range of `i64`.
pub open spec fn next_force(f: int, keys: KeyInput) -> int {
    let raised = if keys.raise_force {
        if f + FORCE_STEP <= i64::MAX {
            f + FORCE_STEP
        } else {
            i64::MAX as int
        }
    } else {
        f
    };
    if keys.lower_force {
        if raised - FORCE_STEP >= i64::MIN {
            raised - FORCE_STEP
        } else {
            i64::MIN as int
        }
    } else {
        raised
    }
}

/// The sign of the force decides the mode.
pub open spec fn mode_of(f: int) -> ForceMode {
    if f > 0 {
        ForceMode::Pull
    } else if f < 0 {
        ForceMode::Push
    } else {
        ForceMode::Off
    }
}

impl Controls {
    /// The knobs at startup.
    pub fn new() -> (r: Controls)
        ensures
            r.timescale == BASE_TIMESCALE,
            r.force == BASE_FORCE,
    {
        Controls { timescale: BASE_TIMESCALE, force: BASE_FORCE }
    }

    /// Applies the keys held during one frame.
    pub fn apply(&mut self, keys: KeyInput)
        ensures
            final(self).timescale == next_timescale(old(self).timescale as int, keys),
            final(self).force == next_force(old(self).force as int, keys),
    {
        if keys.slow_down {
            self.timescale = self.timescale.saturating_sub(1);
        }
        if keys.speed_up {
            self.timescale = self.timescale.saturating_add(1);
        }
        if keys.raise_force {
            self.force = if self.force <= i64::MAX - FORCE_STEP {
                self.force + FORCE_STEP
            } else {
                i64::MAX
            };
        }
        if keys.lower_force {
            self.force = if self.force >= i64::MIN + FORCE_STEP {
                self.force - FORCE_STEP
            } else {
                i64::MIN
            };
        }
    }

    /// Whether the pointer currently pulls, pushes or does nothing.
    pub fn mode(&self) -> (r: ForceMode)
        ensures
            r == mode_of(self.force as int),
    {
        if self.force > 0 {
            ForceMode::Pull
        } else if self.force < 0 {
            ForceMode::Push
        } else {
            ForceMode::Off
        }
    }
}

} // verus!
