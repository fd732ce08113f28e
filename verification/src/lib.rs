//! A factory that builds, pools and schedules script virtual machines.
//!
//! The library decides; a host acts. Every operation that needs the script engine or the task
//! runtime is a walk through stages: a stage names the next action of the host, and the host's
//! reply leads to the next stage. The laws in `laws`, `race` and `custody` hold for every
//! interleaving of such walks.

pub mod assembly;
pub mod block;
pub mod call;
pub mod callback;
pub mod channels;
pub mod custody;
pub mod factory;
pub mod foreign;
pub mod laws;
pub mod loader;
pub mod meters;
pub mod produce;
pub mod queues;
pub mod race;
pub mod status;
pub mod tasks;
pub mod text;

pub use crate::assembly::{BuildFailure, BuildStage, VmCreation, VmRequest};
pub use crate::block::{
    block_reply, block_set_global_var, block_throw, post_job, post_next, BlockCall, BlockError,
    BlockEvent, BlockJob, BlockTask, PostStep, WakeJob,
};
pub use crate::call::{call_failure_for, CallStage};
pub use crate::callback::{callback_next, push_callback, CallbackEvent, CallbackStage};
pub use crate::channels::{
    async_request, get_async_request_size, get_channels_gray, register_async_request,
    set_channels_gray, unregister_async_request, AsyncRequest, VMChannelMap,
};
pub use crate::factory::{add_code, Code, VMFactory};
pub use crate::loader::{LoadStage, VMFactoryLoader};
pub use crate::meters::{build_timer, build_timing, Counter, Timer, Timing};
pub use crate::produce::{ProduceError, ProduceStage};
pub use crate::queues::{
    find_queue, new_queue, queue_created, queue_not_created, queue_removed, remove_queue,
    FactoryQueues, NewQueue,
};
pub use crate::status::{JSStatus, StatusSwitch};
pub use crate::tasks::{
    async_run, async_run_next, async_run_queued, task_next, task_start, AsyncRun, JsTask,
    TaskStep, TaskType, JS_TASK_PRIORITY,
};
