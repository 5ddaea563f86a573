use vstd::prelude::*;
use vstd::arithmetic::div_mod::lemma_mod_add_multiples_vanish;
use vstd::arithmetic::div_mod::lemma_mod_self_0;
use vstd::arithmetic::div_mod::lemma_small_mod;

verus! {

/// Ternary learning rate adjustment direction.
#[derive(Clone, Copy, Debug, PartialEq, Eq, Structural)]
pub enum LRAdjustment {
    Increase,
    Stay,
    Decrease,
}

/// What one step of the schedule decides: the adjustment and the new count
/// of consecutive non-improving steps.
///
/// `improved` is whether the loss beat the best loss so far, `can_raise`
/// whether the raised (and capped) rate lies above the current one, and
/// `can_lower` whether the lowered (and floored) rate lies below it.
pub open spec fn schedule_outcome(
    bad_steps: nat,
    patience: nat,
    improved: bool,
    can_raise: bool,
    can_lower: bool,
) -> (LRAdjustment, nat) {
    if improved {
        (if can_raise { LRAdjustment::Increase } else { LRAdjustment::Stay }, 0)
    } else if bad_steps + 1 >= patience {
        (if can_lower { LRAdjustment::Decrease } else { LRAdjustment::Stay }, 0)
    } else {
        (LRAdjustment::Stay, bad_steps + 1)
    }
}

/// Decides one step of the discrete learning-rate schedule.
///
/// An improvement resets the count of bad steps and raises the rate where the
/// raised rate is larger. Otherwise the count grows by one; once it reaches
/// `patience` it is reset and the rate is lowered where the lowered rate is
/// smaller. Returns the adjustment and the new count of bad steps.
pub fn schedule_decision(
    bad_steps: usize,
    patience: usize,
    improved: bool,
    can_raise: bool,
    can_lower: bool,
) -> (out: (LRAdjustment, usize))
    requires
        !improved ==> bad_steps < usize::MAX,
    ensures
        out.0 == schedule_outcome(bad_steps as nat, patience as nat, improved, can_raise, can_lower).0,
        out.1 == schedule_outcome(bad_steps as nat, patience as nat, improved, can_raise, can_lower).1,
        out.1 == 0 || out.1 < patience,
        out.0 == LRAdjustment::Increase ==> improved,
        improved && can_raise ==> out == (LRAdjustment::Increase, 0usize),
        improved && !can_raise ==> out == (LRAdjustment::Stay, 0usize),
        !improved && bad_steps + 1 < patience ==> out == (LRAdjustment::Stay, (bad_steps + 1) as usize),
        !improved && bad_steps + 1 >= patience && can_lower ==> out == (LRAdjustment::Decrease, 0usize),
        !improved && bad_steps + 1 >= patience && !can_lower ==> out == (LRAdjustment::Stay, 0usize),
        out.0 == LRAdjustment::Decrease ==> !improved && bad_steps + 1 >= patience,
{
    if improved {
        if can_raise {
            return (LRAdjustment::Increase, 0);
        }
        return (LRAdjustment::Stay, 0);
    } else {
        let next = bad_steps + 1;
        if next >= patience {
            if can_lower {
                return (LRAdjustment::Decrease, 0);
            }
            return (LRAdjustment::Stay, 0);
        }
        return (LRAdjustment::Stay, next);
    }
}

/// An improving step raises the rate exactly when the raised rate is larger,
/// and always resets the bad-step count, whatever the count, the patience and
/// the lowered rate were.
pub proof fn law_improvement_raises_and_resets(
    bad_steps: nat,
    patience: nat,
    can_raise: bool,
    can_lower: bool,
    other_bad_steps: nat,
    other_patience: nat,
    other_can_lower: bool,
)
    ensures
        can_raise ==> schedule_outcome(bad_steps, patience, true, can_raise, can_lower) == (
        LRAdjustment::Increase, 0nat),
        !can_raise ==> schedule_outcome(bad_steps, patience, true, can_raise, can_lower) == (
        LRAdjustment::Stay, 0nat),
        schedule_outcome(bad_steps, patience, true, can_raise, can_lower) == schedule_outcome(
            other_bad_steps,
            other_patience,
            true,
            can_raise,
            other_can_lower,
        ),
{
}

/// A non-improving step never raises the rate: below `patience` it stays and
/// counts one more bad step; on reaching `patience` it resets the count and
/// lowers the rate exactly when the lowered rate is smaller. The raised rate
/// plays no part.
pub proof fn law_bad_step_counts_then_lowers(
    bad_steps: nat,
    patience: nat,
    can_raise: bool,
    can_lower: bool,
    other_can_raise: bool,
)
    ensures
        bad_steps + 1 < patience ==> schedule_outcome(bad_steps, patience, false, can_raise, can_lower)
            == (LRAdjustment::Stay, bad_steps + 1),
        bad_steps + 1 >= patience && can_lower ==> schedule_outcome(
            bad_steps,
            patience,
            false,
            can_raise,
            can_lower,
        ) == (LRAdjustment::Decrease, 0nat),
        bad_steps + 1 >= patience && !can_lower ==> schedule_outcome(
            bad_steps,
            patience,
            false,
            can_raise,
            can_lower,
        ) == (LRAdjustment::Stay, 0nat),
        schedule_outcome(bad_steps, patience, false, can_raise, can_lower) == schedule_outcome(
            bad_steps,
            patience,
            false,
            other_can_raise,
            can_lower,
        ),
{
}

/// The adjustments of `k` consecutive non-improving steps, starting from a
/// count of `bad_steps`.
pub open spec fn quiet_run(bad_steps: nat, patience: nat, k: nat, can_lower: bool) -> Seq<
    LRAdjustment,
>
    decreases k,
{
    if k == 0 {
        Seq::empty()
    } else {
        let step = schedule_outcome(bad_steps, patience, false, false, can_lower);
        seq![step.0] + quiet_run(step.1, patience, (k - 1) as nat, can_lower)
    }
}

/// Without improvement the schedule lowers the rate once every `patience`
/// steps: in a run of non-improving steps from a count `bad_steps` below
/// `patience`, step `i` (counted from 0) decreases the rate exactly when
/// `bad_steps + i + 1` is a multiple of `patience` and the lowered rate is
/// smaller; every other step stays. From a fresh count, the first `patience - 1`
/// bad steps stay and the `patience`-th decreases.
pub proof fn law_decrease_every_patience_steps(
    bad_steps: nat,
    patience: nat,
    k: nat,
    can_lower: bool,
)
    requires
        bad_steps < patience,
    ensures
        quiet_run(bad_steps, patience, k, can_lower).len() == k,
        forall|i: int|
            0 <= i < k ==> #[trigger] quiet_run(bad_steps, patience, k, can_lower)[i] == (if (
            bad_steps + i + 1) % (patience as int) == 0 && can_lower {
                LRAdjustment::Decrease
            } else {
                LRAdjustment::Stay
            }),
    decreases k,
{
    if k > 0 {
        let step = schedule_outcome(bad_steps, patience, false, false, can_lower);
        let rest = quiet_run(step.1, patience, (k - 1) as nat, can_lower);
        law_decrease_every_patience_steps(step.1, patience, (k - 1) as nat, can_lower);
        let run = quiet_run(bad_steps, patience, k, can_lower);
        assert(run == seq![step.0] + rest);
        if bad_steps + 1 < patience {
            lemma_small_mod((bad_steps + 1) as nat, patience);
        } else {
            lemma_mod_self_0(patience as int);
        }
        assert forall|i: int| 0 <= i < k implies #[trigger] run[i] == (if (bad_steps + i + 1) % (
        patience as int) == 0 && can_lower {
            LRAdjustment::Decrease
        } else {
            LRAdjustment::Stay
        }) by {
            if i > 0 {
                assert(run[i] == rest[i - 1]);
                if bad_steps + 1 >= patience {
                    lemma_mod_add_multiples_vanish(i, patience as int);
                    assert(bad_steps + i + 1 == patience + i);
                }
            }
        }
    }
}

} // verus!
