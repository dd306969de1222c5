//! The sampler's side of its loop: whether a pass measures, and what it
//! publishes.

use vstd::prelude::*;
use crate::hub::Hub;
use crate::snapshot::{MemoryData, WsData};

verus! {

/// How long the sampler sleeps before it looks for subscribers again, in
/// milliseconds, when it found none.
pub const IDLE_PAUSE_MILLIS: u64 = 1000;

/// What one pass of the sampler's loop does.
#[derive(Clone, Copy, Debug, PartialEq, Eq, Structural)]
pub enum SamplerAction {
    /// Nobody is subscribed: measure nothing, sleep for the idle pause, and
    /// look again.
    Idle,
    /// Take one measurement, publish it, and sleep for the shortest interval
    /// after which the host reports fresh CPU usage.
    Sample,
}

/// The pass that is due when `subscribers` connections are subscribed.
pub open spec fn planned(subscribers: usize) -> SamplerAction {
    if subscribers == 0 {
        SamplerAction::Idle
    } else {
        SamplerAction::Sample
    }
}

/// Decides the next pass from the number of subscribers. Without a
/// subscriber no measurement is asked for.
pub fn plan(subscribers: usize) -> (action: SamplerAction)
    ensures
        action == planned(subscribers),
        (action == SamplerAction::Sample) == (subscribers > 0),
{
    if subscribers == 0 {
        SamplerAction::Idle
    } else {
        SamplerAction::Sample
    }
}

/// How long the sampler sleeps at the end of a pass, in milliseconds: the
/// idle pause when the pass measured nothing, and else the shortest interval
/// after which the host reports fresh CPU usage. Nothing else limits the
/// sampling rate.
pub fn pause_after(action: SamplerAction, refresh_interval_millis: u64) -> (millis: u64)
    ensures
        millis == match action {
            SamplerAction::Idle => IDLE_PAUSE_MILLIS,
            SamplerAction::Sample => refresh_interval_millis,
        },
{
    match action {
        SamplerAction::Idle => IDLE_PAUSE_MILLIS,
        SamplerAction::Sample => refresh_interval_millis,
    }
}

/// Looks how many connections are subscribed to `hub` and decides the next
/// pass.
pub fn next_pass(hub: &Hub) -> (action: SamplerAction) {
    plan(hub.subscriber_count())
}

/// Packages the readings of one measurement and publishes them to `hub`.
/// That nobody is subscribed any more is no error. Returns how many
/// subscribers the snapshot reached.
pub fn publish_readings(hub: &Hub, usages: &Vec<u32>, memory: MemoryData) -> (reached: usize) {
    hub.publish(WsData::from_readings(usages, memory))
}

} // verus!
