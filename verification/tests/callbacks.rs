use vm_factory::{
    callback_next, push_callback, CallbackEvent, CallbackStage, Counter, JSStatus, StatusSwitch,
    TaskType,
};

fn counted(timeout: Option<u32>) -> CallbackStage {
    callback_next(push_callback(3, timeout), CallbackEvent::Counted)
}

#[test]
fn every_push_is_counted_first() {
    for timeout in [None, Some(50)] {
        let stage = push_callback(3, timeout);
        let counter = Counter::VmPushCallbackCount;
        assert_eq!(stage, CallbackStage::Count { counter, callback: 3, timeout });
        assert_eq!(callback_next(stage, CallbackEvent::Pushed(None)), stage);
        assert_eq!(
            callback_next(stage, CallbackEvent::Counted),
            CallbackStage::Push { kind: TaskType::Sync(true), callback: 3, timeout }
        );
    }
}

#[test]
fn a_delayed_callback_is_only_pushed() {
    let stage = callback_next(counted(Some(50)), CallbackEvent::Pushed(Some(-7)));
    assert_eq!(stage, CallbackStage::Done { handle: Some(-7) });
    assert_eq!(callback_next(stage, CallbackEvent::Handled), stage);
}

#[test]
fn a_waiting_machine_runs_the_callback_at_once() {
    let stage = callback_next(counted(None), CallbackEvent::Pushed(Some(-7)));
    assert_eq!(stage, CallbackStage::Switch { handle: Some(-7) });
    let switch = StatusSwitch { from: JSStatus::WaitCallBack, to: JSStatus::SingleTask };
    assert_eq!(stage.status_switch(), Some(switch));
    let stage = callback_next(stage, CallbackEvent::Switched(JSStatus::WaitCallBack));
    assert_eq!(stage, CallbackStage::Handle { handle: Some(-7) });
    assert_eq!(stage.status_switch(), None);
    let stage = callback_next(stage, CallbackEvent::Handled);
    assert_eq!(stage, CallbackStage::Done { handle: Some(-7) });
}

#[test]
fn a_busy_machine_runs_the_callback_later() {
    let busy = [JSStatus::WaitBlock, JSStatus::SingleTask, JSStatus::MultiTask, JSStatus::Other];
    for status in busy {
        let stage = callback_next(counted(None), CallbackEvent::Pushed(None));
        let stage = callback_next(stage, CallbackEvent::Switched(status));
        assert_eq!(stage, CallbackStage::Done { handle: None });
    }
}

#[test]
fn a_push_waits_for_its_own_reply() {
    let stage = counted(None);
    assert_eq!(callback_next(stage, CallbackEvent::Handled), stage);
    assert_eq!(callback_next(stage, CallbackEvent::Switched(JSStatus::WaitCallBack)), stage);
}
