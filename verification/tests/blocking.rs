use vm_factory::{
    block_reply, block_set_global_var, block_throw, post_job, post_next, BlockError, BlockEvent,
    BlockJob, BlockTask, JSStatus, JsTask, PostStep, StatusSwitch, TaskType, WakeJob,
};

fn no(task: BlockTask) -> BlockTask {
    task.next(BlockEvent::Answered(false))
}

fn yes(task: BlockTask) -> BlockTask {
    task.next(BlockEvent::Answered(true))
}

fn done(task: BlockTask) -> BlockTask {
    task.next(BlockEvent::Performed)
}

#[test]
fn a_job_is_posted_to_the_queue_of_its_machine() {
    let call = block_reply(4);
    let step = call.post;
    let task = JsTask { kind: TaskType::Sync(false), priority: 0, queue: Some(4) };
    assert_eq!(step, PostStep::Cast(task));
    let step = post_next(step, true);
    assert_eq!(step, PostStep::AddQueueLen { queue: 4 });
    let step = post_next(step, true);
    assert_eq!(step, PostStep::Unlock { queue: 4 });
    assert_eq!(post_next(step, true), PostStep::Posted);
    assert_eq!(post_next(step, false), PostStep::UnlockFailed);
    assert_eq!(post_next(PostStep::Posted, false), PostStep::Posted);
    assert_eq!(post_next(PostStep::UnlockFailed, true), PostStep::UnlockFailed);
}

#[test]
fn a_variable_is_set_on_a_blocked_machine() {
    let task = block_set_global_var("score".to_string(), 1).task;
    assert!(matches!(task, BlockTask::CheckWaitBlock(_)));
    let task = no(task);
    assert!(matches!(task, BlockTask::CheckSingleTask(_)));
    let task = no(task);
    assert!(matches!(task, BlockTask::CheckMultiTask { .. }));
    let task = yes(task);
    assert!(matches!(task, BlockTask::BuildVar { .. }));
    let task = task.next(BlockEvent::Built(Ok(())));
    match &task {
        BlockTask::StoreVar { name } => assert_eq!(name, "score"),
        _ => panic!("the variable is stored next"),
    }
    assert!(matches!(yes(task), BlockTask::Next(Ok(()))));
}

#[test]
fn a_value_that_cannot_be_built_is_reported() {
    let task = yes(no(no(block_set_global_var("score".to_string(), 1).task)));
    match task.next(BlockEvent::Built(Err("no memory".to_string()))) {
        BlockTask::Next(Err(BlockError::NewGlobalVar(reason))) => assert_eq!(reason, "no memory"),
        _ => panic!("the reason is reported"),
    }
}

#[test]
fn a_variable_that_cannot_be_set_is_reported() {
    let task = yes(no(no(block_set_global_var("score".to_string(), 1).task)));
    match no(task.next(BlockEvent::Built(Ok(())))) {
        BlockTask::Next(Err(BlockError::SetGlobalVar(name))) => assert_eq!(name, "score"),
        _ => panic!("the name is reported"),
    }
}

#[test]
fn a_variable_waits_for_the_machine_to_be_blocked() {
    let waits = [
        yes(block_set_global_var("score".to_string(), 1).task),
        yes(no(block_set_global_var("score".to_string(), 1).task)),
        no(no(no(block_set_global_var("score".to_string(), 1).task))),
    ];
    for task in waits {
        match task {
            BlockTask::Repost(job) => {
                match &job {
                    BlockJob::SetGlobalVar { name } => assert_eq!(name, "score"),
                    _ => panic!("the job stays the same"),
                }
                let again = post_job(job, 2);
                assert!(matches!(again.task, BlockTask::CheckWaitBlock(_)));
                assert!(matches!(again.post, PostStep::Cast(JsTask { queue: Some(2), .. })));
            }
            _ => panic!("the job is posted again"),
        }
    }
}

#[test]
fn a_reply_wakes_a_blocked_machine() {
    let task = no(no(block_reply(1).task));
    assert!(matches!(task, BlockTask::Switch(WakeJob::Reply)));
    let task = task.next(BlockEvent::Switched(JSStatus::MultiTask));
    assert!(matches!(task, BlockTask::Wakeup { error: false, job: WakeJob::Reply }));
    let task = done(task);
    assert!(matches!(task, BlockTask::BuildResult));
    let task = done(task);
    assert!(matches!(task, BlockTask::Continue));
    assert!(matches!(done(task), BlockTask::Done));
}

#[test]
fn a_throw_wakes_a_blocked_machine_with_its_reason() {
    let task = no(no(block_throw("timeout".to_string(), 1).task));
    let task = task.next(BlockEvent::Switched(JSStatus::MultiTask));
    assert!(matches!(task, BlockTask::Wakeup { error: true, .. }));
    let task = done(task);
    match &task {
        BlockTask::NewError { reason } => assert_eq!(reason, "timeout"),
        _ => panic!("the error is built next"),
    }
    let task = done(task);
    assert!(matches!(task, BlockTask::Continue));
    assert!(matches!(done(task), BlockTask::Done));
}

#[test]
fn a_machine_in_any_other_state_is_not_woken() {
    let others =
        [JSStatus::WaitBlock, JSStatus::SingleTask, JSStatus::WaitCallBack, JSStatus::Other];
    for status in others {
        let task = no(no(block_reply(1).task)).next(BlockEvent::Switched(status));
        assert!(matches!(task, BlockTask::Repost(BlockJob::Wake(WakeJob::Reply))));
    }
    assert!(matches!(yes(block_reply(1).task), BlockTask::Repost(_)));
    assert!(matches!(yes(no(block_throw("x".to_string(), 1).task)), BlockTask::Repost(_)));
}

#[test]
fn a_reply_that_does_not_belong_to_the_stage_changes_nothing() {
    let task = block_reply(1).task.next(BlockEvent::Performed);
    assert!(matches!(task, BlockTask::CheckWaitBlock(_)));
    let task = no(no(block_reply(1).task)).next(BlockEvent::Answered(true));
    assert!(matches!(task, BlockTask::Switch(_)));
    assert!(matches!(done(BlockTask::Done), BlockTask::Done));
}

#[test]
fn errors_carry_their_text() {
    let error = BlockError::Unknow("odd".to_string());
    assert_eq!(format!("{:?}", error.clone()), "Unknow(\"odd\")");
}

#[test]
fn each_stage_names_the_status_it_is_about() {
    let task = block_set_global_var("score".to_string(), 1).task;
    assert_eq!(task.status_asked(), Some(JSStatus::WaitBlock));
    let task = no(task);
    assert_eq!(task.status_asked(), Some(JSStatus::SingleTask));
    let task = no(task);
    assert_eq!(task.status_asked(), Some(JSStatus::MultiTask));
    assert_eq!(yes(task).status_asked(), None);
    let task = no(no(block_reply(1).task));
    let switch = StatusSwitch { from: JSStatus::MultiTask, to: JSStatus::SingleTask };
    assert_eq!(task.status_switch(), Some(switch));
    assert_eq!(done(task.next(BlockEvent::Switched(JSStatus::MultiTask))).status_switch(), None);
}

fn reply(status: &mut JSStatus, task: &BlockTask) -> BlockEvent {
    if let Some(asked) = task.status_asked() {
        BlockEvent::Answered(*status == asked)
    } else if let Some(switch) = task.status_switch() {
        let last = *status;
        if last == switch.from {
            *status = switch.to;
        }
        BlockEvent::Switched(last)
    } else {
        BlockEvent::Performed
    }
}

fn is_over(task: &BlockTask) -> bool {
    matches!(task, BlockTask::Next(_) | BlockTask::Done | BlockTask::Repost(_))
}

#[test]
fn of_two_wake_requests_one_wakes_the_machine_and_one_is_posted_again() {
    for order in 0..4096u32 {
        let mut status = JSStatus::MultiTask;
        let mut tasks =
            [Some(block_reply(1).task), Some(block_throw("stop".to_string(), 1).task)];
        let mut turn = 0;
        while !tasks.iter().flatten().all(is_over) {
            let who = ((order >> (turn % 12)) & 1) as usize;
            let who = if tasks[who].as_ref().map_or(true, is_over) { 1 - who } else { who };
            if let Some(task) = tasks[who].take() {
                let event = reply(&mut status, &task);
                tasks[who] = Some(task.next(event));
            }
            turn += 1;
        }
        assert_eq!(status, JSStatus::SingleTask);
        match &tasks {
            [Some(BlockTask::Done), Some(BlockTask::Repost(BlockJob::Wake(WakeJob::Throw {
                reason,
            })))] => assert_eq!(reason, "stop"),
            [Some(BlockTask::Repost(BlockJob::Wake(WakeJob::Reply))), Some(BlockTask::Done)] => {}
            _ => panic!("exactly one request wakes the machine up"),
        }
    }
}

#[test]
fn a_variable_is_built_once_however_often_its_request_is_posted() {
    let mut status = JSStatus::WaitBlock;
    let mut task = block_set_global_var("score".to_string(), 1).task;
    let mut built = 0;
    let mut posts = 0;
    loop {
        assert_eq!(task.status_switch(), None);
        task = match task {
            BlockTask::BuildVar { .. } => {
                built += 1;
                task.next(BlockEvent::Built(Ok(())))
            }
            BlockTask::StoreVar { .. } => task.next(BlockEvent::Answered(true)),
            BlockTask::Repost(job) => {
                posts += 1;
                status = match posts {
                    1 => JSStatus::SingleTask,
                    2 => JSStatus::Other,
                    _ => JSStatus::MultiTask,
                };
                post_job(job, 1).task
            }
            BlockTask::Next(result) => {
                assert!(result.is_ok());
                break;
            }
            task => {
                let event = reply(&mut status, &task);
                task.next(event)
            }
        };
    }
    assert_eq!((built, posts), (1, 3));
}
