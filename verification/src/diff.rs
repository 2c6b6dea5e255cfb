//! Differences between two snapshots of the same account: a non-negative
//! delta for every accumulating quantity, and the elapsed time between the
//! capture instants.
use crate::data::{clamped_delta, ChinaUnicomData};
use vstd::prelude::*;

verus! {

/// The change of every accumulating quantity between a current and a
/// reference snapshot, each floored at zero, and the elapsed seconds
/// between their capture instants (negative when the snapshots were
/// compared out of order).
#[derive(Clone, Copy, Debug, PartialEq, Eq, Structural)]
pub struct DeltaSet {
    pub sum_flow_used: i64,
    pub limit_flow_used: i64,
    pub non_limit_flow_used: i64,
    pub free_flow_used: i64,
    pub non_free_flow_used: i64,
    pub sum_voice_used: i64,
    pub limit_voice_used: i64,
    pub non_limit_voice_used: i64,
    pub elapsed_seconds: i64,
}

/// The delta set of two snapshots: every used quantity clamped at zero,
/// the elapsed time signed.
pub open spec fn spec_diff(current: ChinaUnicomData, reference: ChinaUnicomData) -> DeltaSet {
    DeltaSet {
        sum_flow_used: clamped_delta(
            current.sum_flow_used as int,
            reference.sum_flow_used as int,
        ) as i64,
        limit_flow_used: clamped_delta(
            current.limit_flow_used as int,
            reference.limit_flow_used as int,
        ) as i64,
        non_limit_flow_used: clamped_delta(
            current.non_limit_flow_used as int,
            reference.non_limit_flow_used as int,
        ) as i64,
        free_flow_used: clamped_delta(
            current.free_flow_used as int,
            reference.free_flow_used as int,
        ) as i64,
        non_free_flow_used: clamped_delta(
            current.non_free_flow_used as int,
            reference.non_free_flow_used as int,
        ) as i64,
        sum_voice_used: clamped_delta(
            current.sum_voice_used as int,
            reference.sum_voice_used as int,
        ) as i64,
        limit_voice_used: clamped_delta(
            current.limit_voice_used as int,
            reference.limit_voice_used as int,
        ) as i64,
        non_limit_voice_used: clamped_delta(
            current.non_limit_voice_used as int,
            reference.non_limit_voice_used as int,
        ) as i64,
        elapsed_seconds: (current.time.unix_seconds - reference.time.unix_seconds) as i64,
    }
}

fn delta_of(cur: i64, reference: i64) -> (d: i64)
    requires
        0 <= cur,
        0 <= reference,
    ensures
        d == clamped_delta(cur as int, reference as int),
{
    if cur >= reference {
        cur - reference
    } else {
        0
    }
}

/// Computes the delta set of `current` against `reference`: every
/// accumulating quantity as `max(0, current - reference)`, so that clock
/// skew, counter resets or out-of-order snapshots never yield a negative
/// delta, and the elapsed seconds as the signed difference of the capture
/// instants.
pub fn diff(current: &ChinaUnicomData, reference: &ChinaUnicomData) -> (d: DeltaSet)
    requires
        current.wf(),
        reference.wf(),
    ensures
        d == spec_diff(*current, *reference),
{
    DeltaSet {
        sum_flow_used: delta_of(current.sum_flow_used, reference.sum_flow_used),
        limit_flow_used: delta_of(current.limit_flow_used, reference.limit_flow_used),
        non_limit_flow_used: delta_of(current.non_limit_flow_used, reference.non_limit_flow_used),
        free_flow_used: delta_of(current.free_flow_used, reference.free_flow_used),
        non_free_flow_used: delta_of(current.non_free_flow_used, reference.non_free_flow_used),
        sum_voice_used: delta_of(current.sum_voice_used, reference.sum_voice_used),
        limit_voice_used: delta_of(current.limit_voice_used, reference.limit_voice_used),
        non_limit_voice_used: delta_of(
            current.non_limit_voice_used,
            reference.non_limit_voice_used,
        ),
        elapsed_seconds: current.time.unix_seconds - reference.time.unix_seconds,
    }
}

/// Two snapshots with identical quantities and capture instants diff to
/// all-zero deltas and zero elapsed time.
pub proof fn lemma_identical_snapshots_zero_diff(
    current: ChinaUnicomData,
    reference: ChinaUnicomData,
)
    requires
        current.sum_flow_used == reference.sum_flow_used,
        current.limit_flow_used == reference.limit_flow_used,
        current.non_limit_flow_used == reference.non_limit_flow_used,
        current.free_flow_used == reference.free_flow_used,
        current.non_free_flow_used == reference.non_free_flow_used,
        current.sum_voice_used == reference.sum_voice_used,
        current.limit_voice_used == reference.limit_voice_used,
        current.non_limit_voice_used == reference.non_limit_voice_used,
        current.time == reference.time,
    ensures
        spec_diff(current, reference) == (DeltaSet {
            sum_flow_used: 0,
            limit_flow_used: 0,
            non_limit_flow_used: 0,
            free_flow_used: 0,
            non_free_flow_used: 0,
            sum_voice_used: 0,
            limit_voice_used: 0,
            non_limit_voice_used: 0,
            elapsed_seconds: 0,
        }),
{
}

/// An accumulating quantity that went backwards between the reference and
/// the current snapshot diffs to exactly zero, never to a negative value.
pub proof fn lemma_delta_zero_floor(current: ChinaUnicomData, reference: ChinaUnicomData)
    ensures
        current.sum_flow_used < reference.sum_flow_used ==> spec_diff(
            current,
            reference,
        ).sum_flow_used == 0,
        current.limit_flow_used < reference.limit_flow_used ==> spec_diff(
            current,
            reference,
        ).limit_flow_used == 0,
        current.non_limit_flow_used < reference.non_limit_flow_used ==> spec_diff(
            current,
            reference,
        ).non_limit_flow_used == 0,
        current.free_flow_used < reference.free_flow_used ==> spec_diff(
            current,
            reference,
        ).free_flow_used == 0,
        current.non_free_flow_used < reference.non_free_flow_used ==> spec_diff(
            current,
            reference,
        ).non_free_flow_used == 0,
        current.sum_voice_used < reference.sum_voice_used ==> spec_diff(
            current,
            reference,
        ).sum_voice_used == 0,
        current.limit_voice_used < reference.limit_voice_used ==> spec_diff(
            current,
            reference,
        ).limit_voice_used == 0,
        current.non_limit_voice_used < reference.non_limit_voice_used ==> spec_diff(
            current,
            reference,
        ).non_limit_voice_used == 0,
{
}

} // verus!
