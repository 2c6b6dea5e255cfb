//! The notification threshold policy: an ordered set of optional triggers
//! inspected in a fixed priority order, the first one that is configured
//! and fires deciding the outcome.
use crate::diff::DeltaSet;
use vstd::prelude::*;

verus! {

/// The optional triggers of the policy.  The elapsed-time trigger
/// outranks the free-usage trigger, which outranks the non-free-usage
/// trigger; a higher trigger that fires stops the evaluation.
#[derive(Clone, Copy, Debug, PartialEq)]
pub struct ThresholdConfig {
    pub timeout_seconds: Option<i64>,
    pub free_threshold: Option<i64>,
    pub non_free_threshold: Option<i64>,
}

/// The trigger that fired, in the tagged form the policy evaluates.
#[derive(Clone, Copy, Debug, PartialEq, Eq, Structural)]
pub enum Trigger {
    Timeout,
    FreeUsage,
    NonFreeUsage,
}

/// The first trigger, in priority order, that is configured and fires on
/// the given deltas and elapsed time; nothing when none does.
pub open spec fn spec_first_trigger(
    d: DeltaSet,
    elapsed_seconds: int,
    config: ThresholdConfig,
) -> Option<Trigger> {
    if config.timeout_seconds matches Some(t) && elapsed_seconds >= t {
        Some(Trigger::Timeout)
    } else if config.free_threshold matches Some(f) && d.free_flow_used >= f {
        Some(Trigger::FreeUsage)
    } else if config.non_free_threshold matches Some(n) && d.non_free_flow_used >= n {
        Some(Trigger::NonFreeUsage)
    } else {
        None
    }
}

/// Evaluates the triggers in priority order and reports the first that
/// fires: the elapsed-time trigger, else the free-usage trigger on the
/// free flow delta, else the non-free-usage trigger on the non-free flow
/// delta.
pub fn first_trigger(d: &DeltaSet, elapsed_seconds: i64, config: &ThresholdConfig) -> (r: Option<
    Trigger,
>)
    ensures
        r == spec_first_trigger(*d, elapsed_seconds as int, *config),
{
    if let Some(t) = config.timeout_seconds {
        if elapsed_seconds >= t {
            return Some(Trigger::Timeout);
        }
    }
    if let Some(f) = config.free_threshold {
        if d.free_flow_used >= f {
            return Some(Trigger::FreeUsage);
        }
    }
    if let Some(n) = config.non_free_threshold {
        if d.non_free_flow_used >= n {
            return Some(Trigger::NonFreeUsage);
        }
    }
    None
}

/// Whether the rendered message should be delivered: true exactly when
/// some configured trigger fires.  With no trigger configured the result
/// is false.
pub fn should_notify(d: &DeltaSet, elapsed_seconds: i64, config: &ThresholdConfig) -> (b: bool)
    ensures
        b == (spec_first_trigger(*d, elapsed_seconds as int, *config) is Some),
{
    first_trigger(d, elapsed_seconds, config).is_some()
}

/// An elapsed timeout fires first whatever the usage deltas show, so only
/// the timeout trigger's effect is observable when several could fire.
pub proof fn lemma_timeout_priority(d: DeltaSet, elapsed_seconds: int, config: ThresholdConfig)
    requires
        config.timeout_seconds matches Some(t) && elapsed_seconds >= t,
    ensures
        spec_first_trigger(d, elapsed_seconds, config) == Some(Trigger::Timeout),
{
}

/// With the timeout configured but not yet elapsed, a satisfied
/// free-usage threshold fires on its own.
pub proof fn lemma_free_threshold_fires(d: DeltaSet, elapsed_seconds: int, config: ThresholdConfig)
    requires
        config.timeout_seconds matches Some(t) && elapsed_seconds < t,
        config.free_threshold matches Some(f) && d.free_flow_used >= f,
    ensures
        spec_first_trigger(d, elapsed_seconds, config) == Some(Trigger::FreeUsage),
{
}

/// With no trigger configured at all, no message is ever delivered.
pub proof fn lemma_unconfigured_never_fires(
    d: DeltaSet,
    elapsed_seconds: int,
    config: ThresholdConfig,
)
    requires
        config.timeout_seconds is None,
        config.free_threshold is None,
        config.non_free_threshold is None,
    ensures
        spec_first_trigger(d, elapsed_seconds, config) is None,
{
}

} // verus!
