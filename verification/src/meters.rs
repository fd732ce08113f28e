//! The counters and timers that the host keeps over all factories.

use crate::assembly::BuildStage;
use vstd::prelude::*;

verus! {

/// A counter over all factories. It is raised by one at a time.
#[derive(Clone, Copy, Debug, PartialEq, Eq, Structural)]
pub enum Counter {
    /// Machines that were built.
    VmCount,
    /// Calls that were posted.
    VmCallCount,
    /// Callbacks that were pushed.
    VmPushCallbackCount,
    /// Requests that were sent through the channel.
    VmAsyncRequestCount,
}

/// A timer over all factories. It sums up the spans that it measured.
#[derive(Clone, Copy, Debug, PartialEq, Eq, Structural)]
pub enum Timer {
    /// From the start of a build until its machine exists.
    VmNewTime,
    /// From then on until the machine is ready.
    VmLoadTime,
}

/// What the host does with its timers.
#[derive(Clone, Copy, Debug, PartialEq, Eq, Structural)]
pub struct Timing {
    /// Add the span that ends here to this timer.
    pub ended: Option<Timer>,
    /// A span of this timer starts here.
    pub started: Option<Timer>,
}

/// The name under which a counter is shown.
pub open spec fn counter_name(counter: Counter) -> Seq<char> {
    match counter {
        Counter::VmCount => "vm_count"@,
        Counter::VmCallCount => "vm_call_count"@,
        Counter::VmPushCallbackCount => "vm_push_callback_count"@,
        Counter::VmAsyncRequestCount => "vm_async_request_count"@,
    }
}

/// The name under which a timer is shown.
pub open spec fn timer_name(timer: Timer) -> Seq<char> {
    match timer {
        Timer::VmNewTime => "vm_new_time"@,
        Timer::VmLoadTime => "vm_load_time"@,
    }
}

impl Counter {
    /// The name under which this counter is shown.
    pub fn name(&self) -> (name: &'static str)
        ensures
            name@ == counter_name(*self),
    {
        match *self {
            Counter::VmCount => "vm_count",
            Counter::VmCallCount => "vm_call_count",
            Counter::VmPushCallbackCount => "vm_push_callback_count",
            Counter::VmAsyncRequestCount => "vm_async_request_count",
        }
    }
}

impl Timer {
    /// The name under which this timer is shown.
    pub fn name(&self) -> (name: &'static str)
        ensures
            name@ == timer_name(*self),
    {
        match *self {
            Timer::VmNewTime => "vm_new_time",
            Timer::VmLoadTime => "vm_load_time",
        }
    }
}

/// What happens to the timers once the action of `stage` was answered with `ok`. A build starts
/// with a span of `VmNewTime`.
pub open spec fn build_timed(stage: BuildStage, ok: bool) -> Timing {
    match stage {
        BuildStage::Create(_) => if ok {
            Timing { ended: Some(Timer::VmNewTime), started: Some(Timer::VmLoadTime) }
        } else {
            Timing { ended: None, started: None }
        },
        BuildStage::UpdateLastHeapSize { .. } => Timing {
            ended: Some(Timer::VmLoadTime),
            started: None,
        },
        _ => Timing { ended: None, started: None },
    }
}

/// The timer whose span starts with a build.
pub fn build_timer() -> (timer: Timer)
    ensures
        timer == Timer::VmNewTime,
{
    Timer::VmNewTime
}

/// What the host does with its timers once the action of `stage` returned `ok`.
pub fn build_timing(stage: BuildStage, ok: bool) -> (timing: Timing)
    ensures
        timing == build_timed(stage, ok),
{
    match stage {
        BuildStage::Create(_) => if ok {
            Timing { ended: Some(Timer::VmNewTime), started: Some(Timer::VmLoadTime) }
        } else {
            Timing { ended: None, started: None }
        },
        BuildStage::UpdateLastHeapSize { .. } => Timing {
            ended: Some(Timer::VmLoadTime),
            started: None,
        },
        _ => Timing { ended: None, started: None },
    }
}

/// Each counter and each timer is shown under a name of its own.
pub proof fn law_meters_are_shown_under_their_names()
    ensures
        counter_name(Counter::VmCount) == "vm_count"@,
        counter_name(Counter::VmCallCount) == "vm_call_count"@,
        counter_name(Counter::VmPushCallbackCount) == "vm_push_callback_count"@,
        counter_name(Counter::VmAsyncRequestCount) == "vm_async_request_count"@,
        timer_name(Timer::VmNewTime) == "vm_new_time"@,
        timer_name(Timer::VmLoadTime) == "vm_load_time"@,
{
}

/// The creation of a machine is measured up to the moment when the machine exists, and its loading
/// from then on until its heap size is noted. A machine that was not created measures nothing, and
/// no other stage touches a timer.
pub proof fn law_creation_and_loading_are_measured(stage: BuildStage, ok: bool)
    ensures
        build_timed(stage, ok).ended == Some(Timer::VmNewTime) <==> stage is Create && ok,
        build_timed(stage, ok).started == Some(Timer::VmLoadTime) <==> stage is Create && ok,
        build_timed(stage, ok).started != Some(Timer::VmNewTime),
        build_timed(stage, ok).ended == Some(Timer::VmLoadTime) <==> stage is UpdateLastHeapSize,
{
}

} // verus!
