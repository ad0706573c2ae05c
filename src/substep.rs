use vstd::prelude::*;

verus! {

/// Microseconds in one time unit.
pub const MICROS_PER_UNIT: u64 = 1_000_000;

/// The smallest sub-step, in microseconds: a thousandth of a time unit.
pub const MIN_STEP: u64 = 1000;

/// The sub-step size for a frame, given `limit`, the largest step in
/// microseconds that keeps every ball from moving further than its own radius
/// (`None` where no ball moves, so no step would be too large). It is held at
/// `MIN_STEP` from below; without a limit it is as large as a step can be.
pub open spec fn step_size_of(limit: Option<u64>) -> nat {
    match limit {
        Some(l) => if l < MIN_STEP {
            MIN_STEP as nat
        } else {
            l as nat
        },
        None => u64::MAX as nat,
    }
}

/// The sub-steps that consume `remaining` microseconds with steps of at most
/// `step`: each takes as much as is left, up to `step`.
pub open spec fn step_sequence(remaining: nat, step: nat) -> Seq<nat>
    decreases remaining,
{
    if remaining == 0 || step == 0 {
        Seq::empty()
    } else {
        let s = if remaining < step {
            remaining
        } else {
            step
        };
        seq![s] + step_sequence((remaining - s) as nat, step)
    }
}

/// The sum of a sequence of durations.
pub open spec fn total(s: Seq<nat>) -> nat
    decreases s.len(),
{
    if s.len() == 0 {
        0
    } else {
        s[0] + total(s.drop_first())
    }
}

/// The sub-step size for a frame; see [`step_size_of`].
pub fn safe_step(limit: Option<u64>) -> (r: u64)
    ensures
        r == step_size_of(limit),
        r >= MIN_STEP,
{
    match limit {
        Some(l) => if l < MIN_STEP {
            MIN_STEP
        } else {
            l
        },
        None => u64::MAX,
    }
}

/// What is left of a frame's elapsed time, handed out in sub-steps.
pub struct SubSteps {
    remaining: u64,
    step: u64,
}

/// The state of a [`SubSteps`]: time left and step size, in microseconds.
pub struct SubStepsView {
    pub remaining: nat,
    pub step: nat,
}

impl View for SubSteps {
    type V = SubStepsView;

    closed spec fn view(&self) -> SubStepsView {
        SubStepsView { remaining: self.remaining as nat, step: self.step as nat }
    }
}

impl SubSteps {
    #[verifier::type_invariant]
    spec fn step_is_positive(&self) -> bool {
        self.step > 0
    }

    /// Splits a frame of `frame` microseconds into sub-steps no larger than
    /// `safe_step(limit)`.
    pub fn new(frame: u64, limit: Option<u64>) -> (r: SubSteps)
        ensures
            r@.remaining == frame,
            r@.step == step_size_of(limit),
            r@.step >= MIN_STEP,
    {
        SubSteps { remaining: frame, step: safe_step(limit) }
    }

    /// The time of the frame not yet handed out.
    pub fn remaining(&self) -> (r: u64)
        ensures
            r == self@.remaining,
    {
        self.remaining
    }

    /// The largest sub-step this frame hands out.
    pub fn step(&self) -> (r: u64)
        ensures
            r == self@.step,
            r > 0,
    {
        proof {
            use_type_invariant(self);
        }
        self.step
    }

    /// The next sub-step, or `None` once the frame is used up. The steps
    /// handed out, in order, are `step_sequence` of what was left.
    pub fn next_step(&mut self) -> (r: Option<u64>)
        ensures
            final(self)@.step == old(self)@.step,
            old(self)@.remaining == 0 ==> r is None && final(self)@.remaining == 0,
            old(self)@.remaining > 0 ==> (r matches Some(s) && s > 0 && s <= old(self)@.step
                && s == step_sequence(old(self)@.remaining, old(self)@.step)[0]
                && final(self)@.remaining == old(self)@.remaining - s),
            step_sequence(old(self)@.remaining, old(self)@.step) == match r {
                Some(s) => seq![s as nat] + step_sequence(
                    final(self)@.remaining,
                    final(self)@.step,
                ),
                None => Seq::<nat>::empty(),
            },
    {
        proof {
            use_type_invariant(&*self);
        }
        if self.remaining == 0 {
            None
        } else {
            let s = if self.remaining < self.step {
                self.remaining
            } else {
                self.step
            };
            self.remaining = self.remaining - s;
            Some(s)
        }
    }
}

proof fn lemma_total_prepend(x: nat, s: Seq<nat>)
    ensures
        total(seq![x] + s) == x + total(s),
{
    assert((seq![x] + s).drop_first() =~= s);
}

/// The sub-steps of a frame cover exactly its elapsed time: they sum to
/// `frame`, each is positive and at most `step`, and there are
/// `frame / step` of them, one more where `step` does not divide `frame`.
pub proof fn lemma_steps_cover_frame(frame: nat, step: nat)
    requires
        step > 0,
    ensures
        total(step_sequence(frame, step)) == frame,
        forall|k: int|
            0 <= k < step_sequence(frame, step).len() ==> 0 < #[trigger] step_sequence(
                frame,
                step,
            )[k] <= step,
        step_sequence(frame, step).len() == frame / step + (if frame % step == 0 {
            0nat
        } else {
            1nat
        }),
    decreases frame,
{
    if frame > 0 {
        let s = if frame < step {
            frame
        } else {
            step
        };
        let rest = (frame - s) as nat;
        lemma_steps_cover_frame(rest, step);
        lemma_total_prepend(s, step_sequence(rest, step));
        let all = step_sequence(frame, step);
        assert(all == seq![s] + step_sequence(rest, step));
        assert forall|k: int| 0 <= k < all.len() implies 0 < #[trigger] all[k] <= step by {
            if k > 0 {
                assert(all[k] == step_sequence(rest, step)[k - 1]);
            }
        }
        if frame < step {
            assert(rest == 0);
            assert(frame / step == 0) by (nonlinear_arith)
                requires
                    frame < step,
            ;
            assert(frame % step == frame) by (nonlinear_arith)
                requires
                    frame < step,
            ;
        } else {
            assert(frame / step == rest / step + 1 && frame % step == rest % step)
                by (nonlinear_arith)
                requires
                    rest == frame - step,
                    step > 0,
                    frame >= step,
            ;
        }
    }
}

} // verus!
