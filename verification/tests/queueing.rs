use vm_factory::{
    find_queue, new_queue, queue_created, queue_not_created, queue_removed, remove_queue,
    FactoryQueues, NewQueue, JS_TASK_PRIORITY,
};

const CREATE: NewQueue = NewQueue::Create { priority: JS_TASK_PRIORITY, flag: false };

#[test]
fn a_source_gets_a_queue_once() {
    let mut queues = FactoryQueues::new();
    assert_eq!(find_queue(&queues, 1), None);
    assert_eq!(new_queue(&mut queues, 1), CREATE);
    assert_eq!(queue_created(&mut queues, 1, 10), 10);
    assert_eq!(new_queue(&mut queues, 1), NewQueue::Found(10));
    assert_eq!(queue_created(&mut queues, 1, 11), 10);
    assert_eq!(new_queue(&mut queues, 1), NewQueue::Found(10));
    assert_eq!(find_queue(&queues, 1), Some(10));
}

#[test]
fn of_two_users_at_once_only_one_creates_the_queue() {
    let mut queues = FactoryQueues::new();
    assert_eq!(new_queue(&mut queues, 1), CREATE);
    assert_eq!(new_queue(&mut queues, 1), NewQueue::Wait);
    assert_eq!(find_queue(&queues, 1), None);
    assert_eq!(queue_created(&mut queues, 1, 10), 10);
    assert_eq!(new_queue(&mut queues, 1), NewQueue::Found(10));
}

#[test]
fn a_creation_that_came_to_nothing_is_left_to_the_next_user() {
    let mut queues = FactoryQueues::new();
    assert_eq!(new_queue(&mut queues, 1), CREATE);
    queue_not_created(&mut queues, 1);
    assert_eq!(new_queue(&mut queues, 1), CREATE);
    queue_created(&mut queues, 1, 10);
    queue_not_created(&mut queues, 1);
    assert_eq!(find_queue(&queues, 1), Some(10));
}

#[test]
fn sources_do_not_share_queues() {
    let mut queues = FactoryQueues::new();
    queue_created(&mut queues, 1, 10);
    queue_created(&mut queues, 2, 20);
    assert_eq!(remove_queue(&mut queues, 1), Some(10));
    assert_eq!(new_queue(&mut queues, 2), NewQueue::Found(20));
    assert_eq!(new_queue(&mut queues, 1), CREATE);
}

#[test]
fn removing_a_queue_that_is_not_there_does_nothing() {
    let mut queues = FactoryQueues::new();
    assert_eq!(remove_queue(&mut queues, 1), None);
    new_queue(&mut queues, 1);
    assert_eq!(remove_queue(&mut queues, 1), None);
    assert_eq!(new_queue(&mut queues, 1), NewQueue::Wait);
}

#[test]
fn a_removal_that_the_runtime_refuses_returns_nothing() {
    assert_eq!(queue_removed(10, true), Some(10));
    assert_eq!(queue_removed(10, false), None);
}
