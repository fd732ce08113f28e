//! Pushing asynchronous callbacks to a machine.

use crate::meters::Counter;
use crate::status::{JSStatus, StatusSwitch};
use crate::tasks::TaskType;
use vstd::prelude::*;

verus! {

/// Where the push of a callback stands, and what the host does next.
#[derive(Clone, Copy, Debug, PartialEq, Eq)]
pub enum CallbackStage {
    /// Raise this counter by one; the reply is `Counted`.
    Count { counter: Counter, callback: u32, timeout: Option<u32> },
    /// Push the callback as a task of this kind, after `timeout` where there is one; the reply
    /// is `Pushed`.
    Push { kind: TaskType, callback: u32, timeout: Option<u32> },
    /// Switch the machine's status as `status_switch` says; the reply is `Switched`, with the
    /// status that stood before.
    Switch { handle: Option<isize> },
    /// Run the callback at once; the reply is `Handled`.
    Handle { handle: Option<isize> },
    /// The callback is pushed, and this is what the push returns.
    Done { handle: Option<isize> },
}

/// What the host replies to the push of a callback.
#[derive(Clone, Copy, Debug, PartialEq, Eq)]
pub enum CallbackEvent {
    /// The counter was raised.
    Counted,
    /// The handle of the task, where it has one.
    Pushed(Option<isize>),
    /// The status that stood before a switch.
    Switched(JSStatus),
    /// The callback was run.
    Handled,
}

/// The stage after `stage`, where the host replies with `event`. A delayed callback is only
/// pushed. Any other is run at once by a machine that waits for a callback. A reply that does
/// not belong to the stage changes nothing.
pub open spec fn callback_following(stage: CallbackStage, event: CallbackEvent) -> CallbackStage {
    match (stage, event) {
        (CallbackStage::Count { counter, callback, timeout }, CallbackEvent::Counted) => {
            CallbackStage::Push { kind: TaskType::Sync(true), callback, timeout }
        },
        (CallbackStage::Push { kind, callback, timeout }, CallbackEvent::Pushed(handle)) => {
            if timeout is Some {
                CallbackStage::Done { handle }
            } else {
                CallbackStage::Switch { handle }
            }
        },
        (CallbackStage::Switch { handle }, CallbackEvent::Switched(last)) => {
            if last == JSStatus::WaitCallBack {
                CallbackStage::Handle { handle }
            } else {
                CallbackStage::Done { handle }
            }
        },
        (CallbackStage::Handle { handle }, CallbackEvent::Handled) => {
            CallbackStage::Done { handle }
        },
        _ => stage,
    }
}

/// Starts pushing a callback to a machine, to run after `timeout` where there is one.
pub fn push_callback(callback: u32, timeout: Option<u32>) -> (stage: CallbackStage)
    ensures
        stage == (CallbackStage::Count {
            counter: Counter::VmPushCallbackCount,
            callback,
            timeout,
        }),
{
    CallbackStage::Count { counter: Counter::VmPushCallbackCount, callback, timeout }
}

/// The switch that the host performs, at a stage that switches.
pub open spec fn callback_switches(stage: CallbackStage) -> Option<StatusSwitch> {
    match stage {
        CallbackStage::Switch { .. } => Some(
            StatusSwitch { from: JSStatus::WaitCallBack, to: JSStatus::SingleTask },
        ),
        _ => None,
    }
}

impl CallbackStage {
    /// The switch that the host performs, at a stage that switches.
    pub fn status_switch(&self) -> (switch: Option<StatusSwitch>)
        ensures
            switch == callback_switches(*self),
    {
        match self {
            CallbackStage::Switch { .. } => Some(
                StatusSwitch { from: JSStatus::WaitCallBack, to: JSStatus::SingleTask },
            ),
            _ => None,
        }
    }
}

/// Takes the push of a callback one stage further, with the host's reply to its present stage.
pub fn callback_next(stage: CallbackStage, event: CallbackEvent) -> (next: CallbackStage)
    ensures
        next == callback_following(stage, event),
{
    match (stage, event) {
        (CallbackStage::Count { counter: _, callback, timeout }, CallbackEvent::Counted) => {
            CallbackStage::Push { kind: TaskType::Sync(true), callback, timeout }
        },
        (CallbackStage::Push { kind: _, callback: _, timeout }, CallbackEvent::Pushed(handle)) => {
            if timeout.is_some() {
                CallbackStage::Done { handle }
            } else {
                CallbackStage::Switch { handle }
            }
        },
        (CallbackStage::Switch { handle }, CallbackEvent::Switched(last)) => {
            if last == JSStatus::WaitCallBack {
                CallbackStage::Handle { handle }
            } else {
                CallbackStage::Done { handle }
            }
        },
        (CallbackStage::Handle { handle }, CallbackEvent::Handled) => {
            CallbackStage::Done { handle }
        },
        (stage, _) => stage,
    }
}

/// The push of a callback after the given replies.
pub open spec fn callback_after(stage: CallbackStage, events: Seq<CallbackEvent>) -> CallbackStage
    decreases events.len(),
{
    if events.len() == 0 {
        stage
    } else {
        callback_following(callback_after(stage, events.drop_last()), events.last())
    }
}

/// The push of a callback returns the handle that the task runtime gave for it, whatever else
/// happens. A delayed callback is neither run at once, nor is the machine's status touched.
pub proof fn law_push_returns_the_handle(
    callback: u32,
    timeout: Option<u32>,
    pushed: Option<isize>,
    events: Seq<CallbackEvent>,
)
    ensures
        ({
            let push = CallbackStage::Push { kind: TaskType::Sync(true), callback, timeout };
            let first = callback_following(push, CallbackEvent::Pushed(pushed));
            let stage = callback_after(first, events);
            &&& stage == (CallbackStage::Switch { handle: pushed }) || stage == (
            CallbackStage::Handle { handle: pushed }) || stage == (CallbackStage::Done {
                handle: pushed,
            })
            &&& timeout is Some ==> stage == (CallbackStage::Done { handle: pushed })
        }),
    decreases events.len(),
{
    if events.len() > 0 {
        law_push_returns_the_handle(callback, timeout, pushed, events.drop_last());
    }
}

/// The push of a callback is counted before anything else is done for it, and only then.
pub proof fn law_push_is_counted_first(
    callback: u32,
    timeout: Option<u32>,
    events: Seq<CallbackEvent>,
)
    ensures
        ({
            let count = CallbackStage::Count {
                counter: Counter::VmPushCallbackCount,
                callback,
                timeout,
            };
            let push = CallbackStage::Push { kind: TaskType::Sync(true), callback, timeout };
            &&& callback_following(count, CallbackEvent::Counted) == push
            &&& callback_after(count, events) == count || events.contains(CallbackEvent::Counted)
            &&& callback_after(push, events) !is Count
        }),
    decreases events.len(),
{
    if events.len() > 0 {
        let before = events.drop_last();
        law_push_is_counted_first(callback, timeout, before);
        if before.contains(CallbackEvent::Counted) {
            let i = before.index_of(CallbackEvent::Counted);
            assert(events[i] == CallbackEvent::Counted);
        }
        assert(events[events.len() - 1] == events.last());
    }
}

/// A callback is run at once only by a machine that waited for one.
pub proof fn law_only_waiting_machines_run_at_once(stage: CallbackStage, event: CallbackEvent)
    ensures
        callback_following(stage, event) is Handle && stage !is Handle ==> stage is Switch
            && event == CallbackEvent::Switched(JSStatus::WaitCallBack),
{
}

/// A push without a delay always goes on to switch the machine's status, whatever handle the push
/// of its task returned. A machine that is found waiting runs the callback before the push is
/// done; any other machine is left alone. The push then returns that very handle.
pub proof fn law_undelayed_push_tries_to_run_the_callback(
    kind: TaskType,
    callback: u32,
    handle: Option<isize>,
    status: JSStatus,
)
    ensures
        ({
            let push = CallbackStage::Push { kind, callback, timeout: None };
            let pushed = callback_following(push, CallbackEvent::Pushed(handle));
            let switched = callback_following(pushed, CallbackEvent::Switched(status));
            let handled = callback_following(switched, CallbackEvent::Handled);
            &&& pushed == (CallbackStage::Switch { handle })
            &&& callback_switches(pushed) == Some(
                StatusSwitch { from: JSStatus::WaitCallBack, to: JSStatus::SingleTask },
            )
            &&& status == JSStatus::WaitCallBack ==> switched == (CallbackStage::Handle { handle })
            &&& status != JSStatus::WaitCallBack ==> switched == (CallbackStage::Done { handle })
            &&& handled == (CallbackStage::Done { handle })
        }),
{
}

/// A delayed push is done as soon as its task is pushed, with the handle of the task.
pub proof fn law_delayed_push_is_only_pushed(
    kind: TaskType,
    callback: u32,
    delay: u32,
    handle: Option<isize>,
)
    ensures
        callback_following(
            CallbackStage::Push { kind, callback, timeout: Some(delay) },
            CallbackEvent::Pushed(handle),
        ) == (CallbackStage::Done { handle }),
{
}

/// Once it is counted, a callback is pushed as a task that takes its turn, with the callback and
/// the delay that the caller gave.
pub proof fn law_push_hands_on_its_arguments(
    counter: Counter,
    callback: u32,
    timeout: Option<u32>,
)
    ensures
        callback_following(
            CallbackStage::Count { counter, callback, timeout },
            CallbackEvent::Counted,
        ) == (CallbackStage::Push { kind: TaskType::Sync(true), callback, timeout }),
{
}

/// A push moves only on the reply that its stage asks for, and a push that is done stays done.
/// The status is switched at no other stage than the one for it.
pub proof fn law_push_waits_for_its_reply(stage: CallbackStage, event: CallbackEvent)
    ensures
        stage is Count && event !is Counted ==> callback_following(stage, event) == stage,
        stage is Push && event !is Pushed ==> callback_following(stage, event) == stage,
        stage is Switch && event !is Switched ==> callback_following(stage, event) == stage,
        stage is Handle && event !is Handled ==> callback_following(stage, event) == stage,
        stage is Done ==> callback_following(stage, event) == stage,
        stage !is Switch ==> callback_switches(stage) is None,
{
}

/// The replies to the switch of the status among those that a push got.
pub open spec fn switch_replies(start: CallbackStage, events: Seq<CallbackEvent>) -> Seq<JSStatus>
    decreases events.len(),
{
    if events.len() == 0 {
        Seq::empty()
    } else {
        let before = switch_replies(start, events.drop_last());
        match (callback_after(start, events.drop_last()), events.last()) {
            (CallbackStage::Switch { handle }, CallbackEvent::Switched(status)) => before.push(
                status,
            ),
            _ => before,
        }
    }
}

/// How often the callback was run at once during a push.
pub open spec fn runs_at_once(start: CallbackStage, events: Seq<CallbackEvent>) -> nat
    decreases events.len(),
{
    if events.len() == 0 {
        0
    } else {
        let before = callback_after(start, events.drop_last());
        runs_at_once(start, events.drop_last()) + if before is Handle && events.last() is Handled {
            1nat
        } else {
            0nat
        }
    }
}

/// However the host replies, a push without a delay is not done before the status was switched,
/// exactly once, and the callback was run at once, exactly once, if the switch found a waiting
/// machine, and not at all otherwise.
pub proof fn law_waiting_machine_runs_the_callback_before_the_push_is_done(
    kind: TaskType,
    callback: u32,
    events: Seq<CallbackEvent>,
)
    ensures
        ({
            let start = CallbackStage::Push { kind, callback, timeout: None };
            let replies = switch_replies(start, events);
            let runs = runs_at_once(start, events);
            match callback_after(start, events) {
                CallbackStage::Done { handle } => {
                    &&& replies.len() == 1
                    &&& runs == if replies[0] == JSStatus::WaitCallBack {
                        1nat
                    } else {
                        0nat
                    }
                },
                CallbackStage::Handle { handle } => {
                    &&& replies.len() == 1
                    &&& replies[0] == JSStatus::WaitCallBack
                    &&& runs == 0
                },
                CallbackStage::Switch { handle } => replies.len() == 0 && runs == 0,
                stage => stage == start && replies.len() == 0 && runs == 0,
            }
        }),
    decreases events.len(),
{
    if events.len() > 0 {
        law_waiting_machine_runs_the_callback_before_the_push_is_done(
            kind,
            callback,
            events.drop_last(),
        );
    }
}

} // verus!
