//! Discrete bookkeeping of a 2D ball simulation: how a frame's elapsed time
//! is split into sub-steps, the order in which pairs of balls are checked for
//! collisions, the bounce and collision counters, the user-adjustable time
//! scale and force knobs, and the initial headings.
//!
//! The continuous physics (positions, headings and radii as `f32`) lives in
//! the application around this library.

mod sweep;

pub use sweep::{
    lemma_sweep_visits_each_pair_once, pair_row, pair_rows, sweep_order, sweep_pairs, visited_before,
};

mod tally;

pub use tally::{add_held, Tally, TallyView};

mod controls;

pub use controls::{
    mode_of, next_force, next_timescale, Controls, ForceMode, KeyInput, BASE_FORCE, BASE_TIMESCALE,
    FORCE_STEP,
};

mod heading;

pub use heading::{initial_heading, is_unit_sign, sign_of_flip};

mod substep;

pub use substep::{
    lemma_steps_cover_frame, safe_step, step_sequence, step_size_of, total, SubSteps,
    SubStepsView, MICROS_PER_UNIT, MIN_STEP,
};
