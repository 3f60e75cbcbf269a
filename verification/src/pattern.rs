//! Generation of the on/off switching pattern for a requested duty cycle.
//!
//! A duty percentage in `[0, 100]` is turned into a fixed-length schedule of
//! boolean steps, one per 200 ms time slice of the relay. The steps are spread
//! as evenly as integer arithmetic allows, so the relay switches often in
//! short bursts instead of one long on-phase per cycle.

use vstd::prelude::*;

verus! {

/// Number of steps in one full switching pattern. Each step lasts one fixed
/// time slice, so a pattern with `duty` on-steps delivers `duty` percent of
/// full power over a whole cycle.
pub const TOTAL_STEPS: usize = 100;

/// Value of the distribution accumulator after the first `k` steps have been
/// emitted. It starts at `TOTAL_STEPS / 2`, which centres the pulse train;
/// each step adds `duty` and an emitted on-step pays `TOTAL_STEPS` back.
pub open spec fn acc_after(duty: int, k: int) -> int
    decreases k,
{
    if k <= 0 {
        50
    } else {
        let grown: int = acc_after(duty, k - 1) + duty;
        if grown >= 100 {
            grown - 100
        } else {
            grown
        }
    }
}

/// Whether step `k` of the pattern for `duty` is an on-step: the accumulator
/// reaches the threshold while that step is emitted.
pub open spec fn step_on(duty: int, k: int) -> bool {
    acc_after(duty, k) + duty >= 100
}

/// The full switching pattern for `duty` as a sequence of booleans.
pub open spec fn pattern_seq(duty: int) -> Seq<bool> {
    Seq::new(TOTAL_STEPS as nat, |k: int| step_on(duty, k))
}

/// Number of `true` entries in a sequence of booleans.
pub open spec fn count_on(s: Seq<bool>) -> int
    decreases s.len(),
{
    if s.len() == 0 {
        0
    } else {
        count_on(s.drop_last()) + if s.last() {
            1int
        } else {
            0int
        }
    }
}

/// Number of on-steps among the first `k` steps of the pattern for `duty`.
pub open spec fn on_count(duty: int, k: int) -> int
    decreases k,
{
    if k <= 0 {
        0
    } else {
        on_count(duty, k - 1) + if step_on(duty, k - 1) {
            1int
        } else {
            0int
        }
    }
}

/// The accumulator always stays within one step's worth of credit.
pub proof fn lemma_acc_bounds(duty: int, k: int)
    requires
        0 <= duty <= 100,
        0 <= k,
    ensures
        0 <= acc_after(duty, k) <= 99,
    decreases k,
{
    if k > 0 {
        lemma_acc_bounds(duty, k - 1);
    }
}

/// The accumulator is a linear function of the step index and the number of
/// on-steps emitted so far.
proof fn lemma_acc_linear(duty: int, k: int)
    requires
        0 <= duty <= 100,
        0 <= k,
    ensures
        acc_after(duty, k) == 50 + duty * k - 100 * on_count(duty, k),
    decreases k,
{
    if k > 0 {
        lemma_acc_linear(duty, k - 1);
        assert(duty * k == duty * (k - 1) + duty) by (nonlinear_arith);
    } else {
        assert(duty * 0 == 0) by (nonlinear_arith);
    }
}

/// Counting `true` entries over a prefix of the pattern agrees with the
/// step-indexed count.
proof fn lemma_count_on_prefix(duty: int, k: int)
    requires
        0 <= k <= 100,
    ensures
        count_on(pattern_seq(duty).take(k)) == on_count(duty, k),
    decreases k,
{
    if k == 0 {
        assert(pattern_seq(duty).take(0) =~= Seq::<bool>::empty());
    } else {
        lemma_count_on_prefix(duty, k - 1);
        assert(pattern_seq(duty).take(k).drop_last() =~= pattern_seq(duty).take(k - 1));
        assert(pattern_seq(duty).take(k).last() == step_on(duty, k - 1));
    }
}

/// The pattern for `duty` holds exactly `duty` on-steps out of `TOTAL_STEPS`.
pub proof fn lemma_pattern_on_count(duty: int)
    requires
        0 <= duty <= 100,
    ensures
        count_on(pattern_seq(duty)) == duty,
{
    lemma_count_on_prefix(duty, 100);
    assert(pattern_seq(duty).take(100) =~= pattern_seq(duty));
    lemma_acc_linear(duty, 100);
    lemma_acc_bounds(duty, 100);
    let c: int = on_count(duty, 100);
    assert(0 <= 50 + duty * 100 - 100 * c <= 99);
    assert(c == duty);
}

/// Every step of the pattern is an off-step.
pub open spec fn all_off(s: Seq<bool>) -> bool {
    forall|i: int| 0 <= i < s.len() ==> !s[i]
}

/// Every step of the pattern is an on-step.
pub open spec fn all_on(s: Seq<bool>) -> bool {
    forall|i: int| 0 <= i < s.len() ==> s[i]
}

/// The pattern for duty zero never switches the relay on.
pub proof fn lemma_pattern_zero_all_off()
    ensures
        all_off(pattern_seq(0)),
{
    assert forall|i: int| 0 <= i < pattern_seq(0).len() implies !pattern_seq(0)[i] by {
        lemma_acc_bounds(0, i);
    }
}

/// The pattern for a duty of 100 percent holds the relay on throughout.
pub proof fn lemma_pattern_full_all_on()
    ensures
        all_on(pattern_seq(100)),
{
    assert forall|i: int| 0 <= i < pattern_seq(100).len() implies pattern_seq(100)[i] by {
        lemma_acc_bounds(100, i);
    }
}

/// Steps `i` and `j` are two consecutive on-steps of the pattern for `duty`:
/// both are on and no step strictly between them is.
pub open spec fn adjacent_on(duty: int, i: int, j: int) -> bool {
    &&& 0 <= i < j < 100
    &&& step_on(duty, i)
    &&& step_on(duty, j)
    &&& forall|k: int| i < k < j ==> !step_on(duty, k)
}

/// Right after an on-step the accumulator is below `duty`: the step was
/// emitted at the earliest index the arithmetic allows.
proof fn lemma_acc_after_on(duty: int, k: int)
    requires
        0 <= duty <= 100,
        0 <= k,
        step_on(duty, k),
    ensures
        0 <= acc_after(duty, k + 1) <= duty - 1,
{
    lemma_acc_bounds(duty, k);
    lemma_acc_bounds(duty, k + 1);
    assert(acc_after(duty, k + 1) == acc_after(duty, k) + duty - 100);
}

/// The on-count does not change over a run of off-steps.
proof fn lemma_on_count_flat(duty: int, a: int, b: int)
    requires
        0 <= a <= b,
        forall|k: int| a <= k < b ==> !step_on(duty, k),
    ensures
        on_count(duty, b) == on_count(duty, a),
    decreases b - a,
{
    if b > a {
        lemma_on_count_flat(duty, a, b - 1);
    }
}

/// Between two consecutive on-steps the accumulator gains exactly one
/// threshold's worth of credit.
proof fn lemma_gap_equation(duty: int, i: int, j: int)
    requires
        0 <= duty <= 100,
        adjacent_on(duty, i, j),
    ensures
        duty * (j - i) == acc_after(duty, j + 1) - acc_after(duty, i + 1) + 100,
{
    lemma_acc_linear(duty, i + 1);
    lemma_acc_linear(duty, j + 1);
    lemma_on_count_flat(duty, i + 1, j);
    assert(on_count(duty, j + 1) == on_count(duty, i + 1) + 1);
    assert(duty * (j + 1) - duty * (i + 1) == duty * (j - i)) by (nonlinear_arith);
}

/// The length of a gap between consecutive on-steps, scaled by `duty`, lies
/// within one step's credit of the threshold.
proof fn lemma_gap_bounds(duty: int, i: int, j: int)
    requires
        1 <= duty <= 100,
        adjacent_on(duty, i, j),
    ensures
        101 - duty <= duty * (j - i) <= 99 + duty,
{
    lemma_gap_equation(duty, i, j);
    lemma_acc_after_on(duty, i);
    lemma_acc_after_on(duty, j);
}

/// One direction of the evenness bound on two gaps.
proof fn lemma_gap_diff_le(duty: int, i1: int, j1: int, i2: int, j2: int)
    requires
        1 <= duty <= 100,
        adjacent_on(duty, i1, j1),
        adjacent_on(duty, i2, j2),
    ensures
        (j1 - i1) - (j2 - i2) <= 1,
{
    lemma_gap_bounds(duty, i1, j1);
    lemma_gap_bounds(duty, i2, j2);
    let g1: int = j1 - i1;
    let g2: int = j2 - i2;
    assert(duty * g1 - duty * g2 == duty * (g1 - g2)) by (nonlinear_arith);
    if g1 - g2 >= 2 {
        assert(duty * (g1 - g2) >= 2 * duty) by (nonlinear_arith)
            requires
                duty >= 1,
                g1 - g2 >= 2,
        ;
        assert(false);
    }
}

/// Even distribution: for any duty in `[1, 100]`, the lengths of any two gaps
/// between consecutive on-steps differ by at most one. (A duty of zero has no
/// on-steps and therefore no gaps.)
pub proof fn lemma_even_distribution(duty: int, i1: int, j1: int, i2: int, j2: int)
    requires
        1 <= duty <= 100,
        adjacent_on(duty, i1, j1),
        adjacent_on(duty, i2, j2),
    ensures
        -1 <= (j1 - i1) - (j2 - i2) <= 1,
{
    lemma_gap_diff_le(duty, i1, j1, i2, j2);
    lemma_gap_diff_le(duty, i2, j2, i1, j1);
}

/// Turns a duty cycle percentage into a pattern of on/off steps of equal
/// duration, evenly distributed over the cycle.
///
/// The returned pattern is a pure function of `duty_percent`: the
/// postcondition pins every step, so two calls with the same argument yield
/// identical patterns.
pub fn generate_evenly_distributed_steps(duty_percent: u8) -> (pattern: Vec<bool>)
    requires
        duty_percent <= 100,
    ensures
        pattern@ == pattern_seq(duty_percent as int),
        pattern@.len() == TOTAL_STEPS,
{
    let duty: i32 = duty_percent as i32;
    let mut steps: Vec<bool> = Vec::new();
    let mut accumulator: i32 = 50;
    let mut k: usize = 0;
    while k < 100
        invariant
            0 <= duty <= 100,
            duty == duty_percent as int,
            k <= 100,
            steps@.len() == k,
            accumulator == acc_after(duty as int, k as int),
            0 <= accumulator <= 99,
            forall|j: int| 0 <= j < k ==> steps@[j] == step_on(duty as int, j),
        decreases 100 - k,
    {
        let grown: i32 = accumulator + duty;
        if grown >= 100 {
            steps.push(true);
            accumulator = grown - 100;
        } else {
            steps.push(false);
            accumulator = grown;
        }
        k = k + 1;
    }
    proof {
        assert(steps@ =~= pattern_seq(duty_percent as int));
    }
    steps
}

} // verus!
