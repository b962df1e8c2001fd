//! Messages exchanged between the device and the host.

use vstd::prelude::*;
use crate::step_list::step_list;

verus! {

/// Request for the device to sleep.
#[derive(Debug)]
pub struct SleepMillis {
    pub millis: u16,
}

/// Reply to a sleep request: how long the device actually slept.
#[derive(Debug)]
pub struct SleptMillis {
    pub millis: u16,
}

/// State of the user LED.
#[derive(Clone, Copy, Debug, PartialEq, Eq, Structural)]
pub enum LedState {
    Off,
    On,
}

/// A batch of COBS-framed trace events.
#[derive(Debug)]
pub struct Report {
    pub events_cobs: Vec<u8>,
}

/// One trace event as emitted by the device.
///
/// Events other than `TaskNew` and `ExecutorPollStart` carry a tick that is
/// relative to the tick of the last `ExecutorPollStart`.
#[derive(Debug)]
pub enum Event {
    TaskNew { tick: u64, task_id: u32 },
    TaskExecBegin { tick: u64, task_id: u32 },
    TaskExecEnd { tick: u64, task_id: u32 },
    TaskReadyBegin { tick: u64, task_id: u32 },
    ExecutorIdle { tick: u64 },
    ExecutorPollStart { tick: u64 },
    TaskIdentify { tick: u64, task_id: u32, name: String },
    DeadlineStart { tick: u64, task_id: u32, deadline: u64 },
    DeadlineStop { tick: u64, task_id: u32 },
}

impl Clone for Event {
    fn clone(&self) -> (r: Event)
        ensures
            r == *self,
    {
        match self {
            Event::TaskNew { tick, task_id } => Event::TaskNew { tick: *tick, task_id: *task_id },
            Event::TaskExecBegin { tick, task_id } => Event::TaskExecBegin { tick: *tick, task_id: *task_id },
            Event::TaskExecEnd { tick, task_id } => Event::TaskExecEnd { tick: *tick, task_id: *task_id },
            Event::TaskReadyBegin { tick, task_id } => Event::TaskReadyBegin { tick: *tick, task_id: *task_id },
            Event::ExecutorIdle { tick } => Event::ExecutorIdle { tick: *tick },
            Event::ExecutorPollStart { tick } => Event::ExecutorPollStart { tick: *tick },
            Event::TaskIdentify { tick, task_id, name } => Event::TaskIdentify {
                tick: *tick,
                task_id: *task_id,
                name: name.clone(),
            },
            Event::DeadlineStart { tick, task_id, deadline } => Event::DeadlineStart {
                tick: *tick,
                task_id: *task_id,
                deadline: *deadline,
            },
            Event::DeadlineStop { tick, task_id } => Event::DeadlineStop { tick: *tick, task_id: *task_id },
        }
    }
}

/// One step of a load-generating worker task.
#[derive(Clone, Copy, Debug, PartialEq, Eq, Structural)]
pub enum Step {
    SleepTicks { ticks: u32 },
    WorkTicks { ticks: u32 },
    Yield,
    WaitTrigger,
    WakeTrigger,
    ManualDeadlineStart,
    ManualDeadlineStop,
}

/// A worker task to stage on the device.
///
/// If `loops` is false, `deadline_ticks` is a single deadline; if it is
/// true, the deadline is set again after every run of `steps`.
#[derive(Debug)]
pub struct StageCommand {
    pub ident: u32,
    pub steps: heapless::Vec<Step, 32>,
    pub loops: bool,
    pub deadline_ticks: u64,
    pub loop_delay_ticks: u64,
    pub start_delay_ticks: u64,
    pub manual_start_stop: bool,
}

impl StageCommand {
    /// The steps of the command, first to last.
    pub open spec fn steps_seq(&self) -> Seq<Step> {
        step_list(self.steps)
    }
}

/// Errors when staging a worker task.
#[derive(Clone, Copy, Debug, PartialEq, Eq, Structural)]
pub enum StageError {
    OutOfSpace,
    AlreadyRunning,
}

/// Errors when starting the staged worker tasks.
#[derive(Clone, Copy, Debug, PartialEq, Eq, Structural)]
pub enum StartError {
    NoTasksStaged,
    AlreadyRunning,
}

/// Errors when halting the worker tasks.
#[derive(Clone, Copy, Debug, PartialEq, Eq, Structural)]
pub enum HaltClearError {
    NotRunning,
}

} // verus!
