//! Laws of the error-rate monitors.

use vstd::prelude::*;

use crate::monitor::{AermView, SuermView};

verus! {

/// An alignment monitor after `n` more errors.
pub open spec fn after_errors(aerm: AermView, n: nat) -> AermView
    decreases n,
{
    if n == 0 {
        aerm
    } else {
        after_errors(aerm, (n - 1) as nat).after_error()
    }
}

/// The in-service monitor after a run of signal units, each in error or not.
pub open spec fn after_units(suerm: SuermView, units: Seq<bool>) -> SuermView
    decreases units.len(),
{
    if units.len() == 0 {
        suerm
    } else {
        after_units(suerm, units.drop_last()).recorded(units.last())
    }
}

/// The errored units of a run.
pub open spec fn errors(units: Seq<bool>) -> nat
    decreases units.len(),
{
    if units.len() == 0 {
        0
    } else {
        errors(units.drop_last()) + if units.last() {
            1nat
        } else {
            0nat
        }
    }
}

/// From the start of a proving attempt the monitor trips exactly when the errors have
/// reached the threshold.
pub proof fn aerm_trips_at_the_threshold(threshold: nat, n: nat)
    requires
        threshold <= u32::MAX,
    ensures
        after_errors(AermView::fresh(threshold), n).is_tripped() <==> n >= threshold,
        after_errors(AermView::fresh(threshold), n).threshold == threshold,
        n <= u32::MAX ==> after_errors(AermView::fresh(threshold), n).count == n,
        n > u32::MAX ==> after_errors(AermView::fresh(threshold), n).count == u32::MAX,
    decreases n,
{
    if n > 0 {
        aerm_trips_at_the_threshold(threshold, (n - 1) as nat);
    }
}

/// A declared failure stays declared, whatever is received; only a reset clears it.
pub proof fn suerm_failure_stays(suerm: SuermView, units: Seq<bool>)
    requires
        suerm.failed,
    ensures
        after_units(suerm, units).failed,
    decreases units.len(),
{
    if units.len() > 0 {
        suerm_failure_stays(suerm, units.drop_last());
    }
}

/// The parameters of a monitor stay as they were, the monitor stays well-formed, and
/// the level of the bucket is at most the number of errors.
pub proof fn suerm_level_is_bounded_by_errors(threshold: nat, interval: nat, units: Seq<bool>)
    requires
        interval <= u32::MAX,
    ensures
        ({
            let suerm = after_units(SuermView::fresh(threshold, interval), units);
            &&& suerm.wf()
            &&& suerm.threshold == threshold
            &&& suerm.decrement_interval == interval
            &&& suerm.count <= errors(units)
        }),
    decreases units.len(),
{
    if units.len() > 0 {
        suerm_level_is_bounded_by_errors(threshold, interval, units.drop_last());
    }
}

/// Before the first leak the monitor just counts: in a run shorter than the interval the
/// failure is declared exactly when the errors reach the threshold.
pub proof fn suerm_trips_at_the_threshold(threshold: nat, interval: nat, units: Seq<bool>)
    requires
        0 < threshold,
        interval <= u32::MAX,
        units.len() < interval,
    ensures
        ({
            let suerm = after_units(SuermView::fresh(threshold, interval), units);
            &&& suerm.count == errors(units)
            &&& suerm.received_since_leak == units.len()
            &&& suerm.failed <==> errors(units) >= threshold
        }),
    decreases units.len(),
{
    if units.len() > 0 {
        let before = units.drop_last();
        suerm_trips_at_the_threshold(threshold, interval, before);
        errors_at_most_units(before);
        suerm_level_is_bounded_by_errors(threshold, interval, before);
    }
}

/// There are no more errors than units.
proof fn errors_at_most_units(units: Seq<bool>)
    ensures
        errors(units) <= units.len(),
    decreases units.len(),
{
    if units.len() > 0 {
        errors_at_most_units(units.drop_last());
    }
}

/// Whether, counted from the start, no leak interval of a run holds more than one error.
pub open spec fn at_most_one_error_per_interval(units: Seq<bool>, interval: nat) -> bool {
    forall|i: int, j: int|
        0 <= i < j < units.len() && i / interval as int == j / interval as int ==> !(
        #[trigger] units[i] && #[trigger] units[j])
}

/// An error rate that the leak keeps up with never fails a link: where no interval holds
/// more than one error, the bucket never holds more than one and no failure is declared,
/// for any threshold above one.
pub proof fn suerm_tolerates_one_error_per_interval(
    threshold: nat,
    interval: nat,
    units: Seq<bool>,
)
    requires
        threshold > 1,
        0 < interval <= u32::MAX,
        at_most_one_error_per_interval(units, interval),
    ensures
        ({
            let suerm = after_units(SuermView::fresh(threshold, interval), units);
            &&& !suerm.failed
            &&& suerm.count <= 1
            &&& suerm.received_since_leak == units.len() % interval
            &&& suerm.count == 1 ==> exists|i: int|
                0 <= i < units.len() && #[trigger] units[i] && i / interval as int == units.len()
                    as int / interval as int
        }),
    decreases units.len(),
{
    let n = interval as int;
    if units.len() == 0 {
        assert(0nat % interval == 0) by (nonlinear_arith)
            requires
                interval > 0,
        ;
    } else {
        let before = units.drop_last();
        let last = units.len() - 1;
        assert forall|i: int, j: int|
            0 <= i < j < before.len() && i / n == j / n implies !(#[trigger] before[i]
            && #[trigger] before[j]) by {
            assert(before[i] == units[i] && before[j] == units[j]);
        }
        suerm_tolerates_one_error_per_interval(threshold, interval, before);
        suerm_level_is_bounded_by_errors(threshold, interval, before);
        let suerm = after_units(SuermView::fresh(threshold, interval), before);
        vstd::arithmetic::div_mod::lemma_fundamental_div_mod(last, n);
        let q = last / n;
        let r = last % n;
        if suerm.leaks() {
            assert(r == n - 1);
            assert((q + 1) * n == n * q + n) by (nonlinear_arith);
            vstd::arithmetic::div_mod::lemma_fundamental_div_mod_converse(last + 1, n, q + 1, 0);
        } else {
            assert(q * n == n * q) by (nonlinear_arith);
            vstd::arithmetic::div_mod::lemma_fundamental_div_mod_converse(last + 1, n, q, r + 1);
        }
        if suerm.count == 1 {
            let i = choose|i: int|
                0 <= i < before.len() && #[trigger] before[i] && i / n == before.len() as int / n;
            assert(units[i]);
            assert(!(units[i] && units[last]));
        } else if units.last() {
            assert(units[last]);
        }
    }
}

/// One unit more in the leaky bucket. An error raises the level by one. A unit that
/// completes an interval lowers it by exactly one, unless it is zero, and begins the next
/// interval; every other unit counts towards it. A level at or above the threshold is a
/// failure, which stays.
pub proof fn suerm_raises_and_leaks_by_one(suerm: SuermView, in_error: bool)
    requires
        suerm.count < u32::MAX,
    ensures
        ({
            let after = suerm.recorded(in_error);
            let raised = suerm.count + if in_error {
                1int
            } else {
                0
            };
            let completes = suerm.received_since_leak + 1 >= suerm.decrement_interval;
            &&& !completes ==> after.count == raised && after.received_since_leak
                == suerm.received_since_leak + 1
            &&& completes ==> after.received_since_leak == 0
            &&& completes && raised > 0 ==> after.count == raised - 1
            &&& completes && raised == 0 ==> after.count == 0
            &&& after.failed <==> suerm.failed || after.count >= suerm.threshold
            &&& after.threshold == suerm.threshold
            &&& after.decrement_interval == suerm.decrement_interval
        }),
{
}

/// A level at the largest value that can be counted is not raised further.
pub proof fn suerm_level_saturates(suerm: SuermView)
    requires
        suerm.count == u32::MAX,
    ensures
        ({
            let completes = suerm.received_since_leak + 1 >= suerm.decrement_interval;
            &&& suerm.recorded(true).count == suerm.count - if completes {
                1int
            } else {
                0
            }
            &&& suerm.recorded(false).count == suerm.recorded(true).count
        }),
{
}

/// A fresh monitor has nothing in the bucket, nothing received and no failure.
pub proof fn suerm_starts_empty(threshold: nat, interval: nat)
    ensures
        ({
            let suerm = SuermView::fresh(threshold, interval);
            &&& suerm.count == 0
            &&& suerm.received_since_leak == 0
            &&& !suerm.failed
            &&& suerm.threshold == threshold
            &&& suerm.decrement_interval == interval
        }),
{
}

/// The bucket loses no more than one per interval: from a fresh monitor on, the level is at
/// least the errors less the intervals that are complete. So the failure is declared at the
/// latest when the errors exceed the complete intervals by the threshold.
pub proof fn suerm_leaks_one_per_interval(threshold: nat, interval: nat, units: Seq<bool>)
    requires
        0 < interval <= u32::MAX,
        units.len() <= u32::MAX,
    ensures
        ({
            let suerm = after_units(SuermView::fresh(threshold, interval), units);
            let leaks = units.len() as int / interval as int;
            &&& suerm.received_since_leak == units.len() as int % interval as int
            &&& errors(units) - leaks <= suerm.count <= errors(units)
            &&& units.len() > 0 && errors(units) - leaks >= threshold ==> suerm.failed
        }),
    decreases units.len(),
{
    let n = interval as int;
    errors_at_most_units(units);
    suerm_level_is_bounded_by_errors(threshold, interval, units);
    if units.len() == 0 {
        vstd::arithmetic::div_mod::lemma_fundamental_div_mod_converse(0, n, 0, 0);
    } else {
        let before = units.drop_last();
        let last = units.len() - 1;
        suerm_leaks_one_per_interval(threshold, interval, before);
        errors_at_most_units(before);
        suerm_level_is_bounded_by_errors(threshold, interval, before);
        let suerm = after_units(SuermView::fresh(threshold, interval), before);
        suerm_raises_and_leaks_by_one(suerm, units.last());
        vstd::arithmetic::div_mod::lemma_fundamental_div_mod(last, n);
        let q = last / n;
        let r = last % n;
        if r + 1 >= n {
            assert((q + 1) * n == n * q + n) by (nonlinear_arith);
            vstd::arithmetic::div_mod::lemma_fundamental_div_mod_converse(last + 1, n, q + 1, 0);
        } else {
            assert(q * n == n * q) by (nonlinear_arith);
            vstd::arithmetic::div_mod::lemma_fundamental_div_mod_converse(last + 1, n, q, r + 1);
        }
    }
}

/// An alignment monitor counts every error, and trips at the threshold.
pub proof fn aerm_counts_errors(aerm: AermView)
    requires
        aerm.count < u32::MAX,
    ensures
        aerm.after_error().count == aerm.count + 1,
        aerm.after_error().threshold == aerm.threshold,
        aerm.is_tripped() <==> aerm.count >= aerm.threshold,
{
}

} // verus!
