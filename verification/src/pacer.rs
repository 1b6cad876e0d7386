use crate::node::Delta;
use std::time::Duration;
use vstd::prelude::*;

verus! {

#[verifier::external_type_specification]
#[verifier::external_body]
pub struct ExLoopHelper(spin_sleep::LoopHelper);

#[verifier::external_type_specification]
#[verifier::external_body]
pub struct ExLoopHelperBuilder(spin_sleep::LoopHelperBuilder);

/// The time between two reports of the measured rate, in milliseconds.
pub const REPORT_INTERVAL_MS: u64 = 500;

/// The frame pacer: it reports the time that passed since the previous
/// iteration began and, where a target rate is set, waits at the end of an
/// iteration for as long as that rate asks. The wait itself is the driver's
/// to make, on `helper`.
pub struct FramePacer {
    /// The loop helper that keeps the time.
    pub helper: spin_sleep::LoopHelper,
    /// The rate that the pacer was made for; `None` is uncapped.
    pub target_rate: Option<u32>,
}

/// `LoopHelper::builder`: a builder with nothing set. Nothing is claimed of
/// it.
#[verifier::external_body]
fn helper_builder() -> (builder: spin_sleep::LoopHelperBuilder) {
    spin_sleep::LoopHelper::builder()
}

/// `LoopHelperBuilder::report_interval`: the builder with the time between
/// two rate reports set. Nothing is claimed of it.
#[verifier::external_body]
fn with_report_interval(builder: spin_sleep::LoopHelperBuilder, millis: u64) -> (set:
    spin_sleep::LoopHelperBuilder) {
    builder.report_interval(Duration::from_millis(millis))
}

/// `LoopHelperBuilder::build_with_target_rate`: a loop helper that waits
/// towards `target_rate` iterations a second. The builder takes the time of
/// one iteration from the rate, and panics where that time is not finite:
/// a rate of zero is left out. Nothing is claimed of the helper.
#[verifier::external_body]
fn build_with_target_rate(builder: spin_sleep::LoopHelperBuilder, target_rate: u32) -> (helper:
    spin_sleep::LoopHelper)
    requires
        target_rate > 0,
{
    builder.build_with_target_rate(target_rate)
}

/// `LoopHelperBuilder::build_without_target_rate`: a loop helper that never
/// waits. Nothing is claimed of the helper.
#[verifier::external_body]
fn build_without_target_rate(builder: spin_sleep::LoopHelperBuilder) -> (helper:
    spin_sleep::LoopHelper) {
    builder.build_without_target_rate()
}

/// `LoopHelper::loop_start`: tells the helper that an iteration begins, and
/// gives the time since the previous such call, or since the helper was
/// built, in nanoseconds. The time is the clock's: nothing is claimed of it.
/// The helper adds it to a total that holds more seconds than any clock
/// counts.
#[verifier::external_body]
fn loop_start(helper: &mut spin_sleep::LoopHelper) -> (nanos: u128) {
    helper.loop_start().as_nanos()
}

impl FramePacer {
    /// A pacer for `target_rate` iterations a second, or one that never
    /// waits.
    pub fn new(target_rate: Option<u32>) -> (pacer: FramePacer)
        requires
            target_rate != Some(0u32),
        ensures
            pacer.target_rate == target_rate,
    {
        let builder = with_report_interval(helper_builder(), REPORT_INTERVAL_MS);
        let helper = match target_rate {
            Some(rate) => build_with_target_rate(builder, rate),
            None => build_without_target_rate(builder),
        };
        FramePacer { helper, target_rate }
    }

    /// Begins an iteration: the time that passed since the previous one
    /// began. The pacer stays set for the same rate.
    pub fn start_iteration(&mut self) -> (delta: Delta)
        ensures
            final(self).target_rate == old(self).target_rate,
    {
        let nanos = loop_start(&mut self.helper);
        Delta { nanos }
    }
}

} // verus!
