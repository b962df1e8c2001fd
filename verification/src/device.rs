//! Decisions taken by the device firmware, apart from the I/O they drive.

use vstd::prelude::*;
use crate::icd::{Event, SleptMillis, LedState, StageCommand, Step, StageError, StartError, HaltClearError};
use crate::step_list::{step_list, steps_as_slice};

verus! {

// ---------------------------------------------------------------------------
// Staging, starting and halting worker tasks.

/// How many worker tasks are staged or running.
#[derive(Clone, Copy, Debug, PartialEq, Eq, Structural)]
pub enum LoadState {
    Idle,
    Pending(u32),
    Running(u32),
}

/// Whether a stage request in `state` tries to spawn a worker: every state
/// but a running one does.
pub fn stage_wants_spawn(state: &LoadState) -> (r: bool)
    ensures
        r == !(*state is Running),
{
    !matches!(state, LoadState::Running(_))
}

/// Whether a stage request can be completed without overflowing the count
/// of staged workers.
pub open spec fn can_stage(state: LoadState, spawned: bool) -> bool {
    spawned ==> (state matches LoadState::Pending(n) ==> n < u32::MAX)
}

/// Completes a stage request, where `spawned` tells whether the worker was
/// spawned. A running load refuses new workers; a worker that could not be
/// spawned reports a lack of space; otherwise one more worker is pending.
pub fn stage_task(load_state: &mut LoadState, spawned: bool) -> (r: Result<(), StageError>)
    requires
        can_stage(*old(load_state), spawned),
    ensures
        match *old(load_state) {
            LoadState::Running(_) => r == Err::<(), StageError>(StageError::AlreadyRunning)
                && *final(load_state) == *old(load_state),
            LoadState::Idle => if spawned {
                r is Ok && *final(load_state) == LoadState::Pending(1)
            } else {
                r == Err::<(), StageError>(StageError::OutOfSpace) && *final(load_state) == *old(load_state)
            },
            LoadState::Pending(n) => if spawned {
                r is Ok && *final(load_state) == LoadState::Pending((n + 1) as u32)
            } else {
                r == Err::<(), StageError>(StageError::OutOfSpace) && *final(load_state) == *old(load_state)
            },
        },
{
    match *load_state {
        LoadState::Idle => {
            if spawned {
                *load_state = LoadState::Pending(1);
                Ok(())
            } else {
                Err(StageError::OutOfSpace)
            }
        },
        LoadState::Pending(n) => {
            if spawned {
                *load_state = LoadState::Pending(n + 1);
                Ok(())
            } else {
                Err(StageError::OutOfSpace)
            }
        },
        LoadState::Running(_) => Err(StageError::AlreadyRunning),
    }
}

/// Starts the staged workers: with some pending they all run and their
/// number is returned (the caller then releases them); with none there is
/// nothing to start; a running load cannot be started again.
pub fn start_tasks(load_state: &mut LoadState) -> (r: Result<u32, StartError>)
    ensures
        match *old(load_state) {
            LoadState::Idle => r == Err::<u32, StartError>(StartError::NoTasksStaged)
                && *final(load_state) == *old(load_state),
            LoadState::Pending(n) => r == Ok::<u32, StartError>(n) && *final(load_state) == LoadState::Running(n),
            LoadState::Running(_) => r == Err::<u32, StartError>(StartError::AlreadyRunning)
                && *final(load_state) == *old(load_state),
        },
{
    match *load_state {
        LoadState::Idle => Err(StartError::NoTasksStaged),
        LoadState::Pending(n) => {
            *load_state = LoadState::Running(n);
            Ok(n)
        },
        LoadState::Running(_) => Err(StartError::AlreadyRunning),
    }
}

/// Halts and clears the workers: the number staged or running is returned
/// (the caller then stops them) and nothing is left; with none there is
/// nothing to halt.
pub fn halt_tasks(load_state: &mut LoadState) -> (r: Result<u32, HaltClearError>)
    ensures
        *final(load_state) == LoadState::Idle,
        match *old(load_state) {
            LoadState::Idle => r == Err::<u32, HaltClearError>(HaltClearError::NotRunning),
            LoadState::Pending(n) => r == Ok::<u32, HaltClearError>(n),
            LoadState::Running(n) => r == Ok::<u32, HaltClearError>(n),
        },
{
    match *load_state {
        LoadState::Idle => Err(HaltClearError::NotRunning),
        LoadState::Pending(n) | LoadState::Running(n) => {
            *load_state = LoadState::Idle;
            Ok(n)
        },
    }
}

// ---------------------------------------------------------------------------
// The LED, which is lit when its pin is low.

/// The LED is off when its pin is high.
pub open spec fn led_pin_high(state: LedState) -> bool {
    state == LedState::Off
}

/// The LED state that a pin level shows.
pub open spec fn led_from_pin(high: bool) -> LedState {
    if high { LedState::Off } else { LedState::On }
}

/// Whether the LED pin is driven high for `state`.
pub fn set_led(state: LedState) -> (high: bool)
    ensures
        high == led_pin_high(state),
{
    match state {
        LedState::Off => true,
        LedState::On => false,
    }
}

/// The LED state read back from its pin level.
pub fn get_led(pin_high: bool) -> (r: LedState)
    ensures
        r == led_from_pin(pin_high),
{
    match pin_high {
        true => LedState::Off,
        false => LedState::On,
    }
}

// ---------------------------------------------------------------------------
// Sleeping on request.

/// The reply to a sleep request after `elapsed_millis` milliseconds: the
/// time is sent as its sixteen low bits.
pub fn slept_millis(elapsed_millis: u64) -> (r: SleptMillis)
    ensures
        r.millis == elapsed_millis as u16,
{
    SleptMillis { millis: elapsed_millis as u16 }
}

// ---------------------------------------------------------------------------
// Identity.

/// The 64-bit unique id of a device from its two 32-bit id words.
pub fn unique_id_from_words(lower: u32, upper: u32) -> (r: u64)
    ensures
        r == upper as nat * 0x1_0000_0000 + lower as nat,
{
    let lo = lower as u64;
    let hi = upper as u64;
    let r = (hi << 32u64) | lo;
    assert(r == hi * 0x1_0000_0000 + lo) by (bit_vector)
        requires
            r == (hi << 32u64) | lo,
            hi < 0x1_0000_0000,
            lo < 0x1_0000_0000,
    ;
    r
}

// ---------------------------------------------------------------------------
// Trace events.

/// Start of the RAM region in which task headers live; task ids in the
/// trace are offsets from it.
pub const TASK_ID_BASE: u32 = 0x2000_0000;

/// The id of a task in the trace, from the address of its header.
pub fn trace_task_id(task_addr: u32) -> (r: u32)
    requires
        task_addr >= TASK_ID_BASE,
    ensures
        r == task_addr - TASK_ID_BASE,
{
    task_addr - TASK_ID_BASE
}

/// Ticks since the last poll start, the reference of relative ticks.
pub fn tick_delta(now: u64, last: u64) -> (r: u64)
    requires
        last <= now,
    ensures
        r == now - last,
{
    now - last
}

/// The event a task sends when it announces its name, `tick` ticks after
/// the last poll start.
pub fn task_identify(task_addr: u32, name: String, tick: u64) -> (r: Event)
    requires
        task_addr >= TASK_ID_BASE,
    ensures
        r == (Event::TaskIdentify { tick, task_id: (task_addr - TASK_ID_BASE) as u32, name }),
{
    Event::TaskIdentify { tick, task_id: trace_task_id(task_addr), name }
}

/// The event a task sends when it starts a deadline of `deadline` ticks,
/// `tick` ticks after the last poll start.
pub fn deadline_start(task_addr: u32, deadline: u64, tick: u64) -> (r: Event)
    requires
        task_addr >= TASK_ID_BASE,
    ensures
        r == (Event::DeadlineStart { tick, task_id: (task_addr - TASK_ID_BASE) as u32, deadline }),
{
    Event::DeadlineStart { tick, task_id: trace_task_id(task_addr), deadline }
}

/// The event a task sends when it stops its deadline, `tick` ticks after
/// the last poll start.
pub fn deadline_stop(task_addr: u32, tick: u64) -> (r: Event)
    requires
        task_addr >= TASK_ID_BASE,
    ensures
        r == (Event::DeadlineStop { tick, task_id: (task_addr - TASK_ID_BASE) as u32 }),
{
    Event::DeadlineStop { tick, task_id: trace_task_id(task_addr) }
}

/// Bytes of trace after which the drain task is woken.
pub const NOTIF_SIZE: usize = 768 * 4;

/// Counts `used` freshly written trace bytes: once more than a
/// notification's worth is pending, the count restarts and the drain task
/// is to be woken (second result).
pub fn note_pending(pending: usize, used: usize) -> (r: (usize, bool))
    requires
        pending + used <= usize::MAX,
    ensures
        pending + used > NOTIF_SIZE ==> r == (0usize, true),
        pending + used <= NOTIF_SIZE ==> r == ((pending + used) as usize, false),
{
    let new = pending + used;
    if new > NOTIF_SIZE {
        (0, true)
    } else {
        (new, false)
    }
}

// ---------------------------------------------------------------------------
// Draining the trace queue to the host.

/// Largest chunk of trace sent in one report.
pub const CHUNK: usize = 768;

/// Counters of the drain task.
#[derive(Clone, Copy, Debug, PartialEq, Eq, Structural)]
pub struct DrainState {
    pub ttl: usize,
    pub drains: usize,
    pub ctr: u32,
    pub was_good: bool,
}

/// How long after it starts the drain task discards what it reads, giving
/// USB time to come up, in nanoseconds.
pub const WARM_UP_NANOS: u128 = 3_000_000_000;

/// How often the drain task logs its counters, in nanoseconds.
pub const LOG_PERIOD_NANOS: u128 = 1_000_000_000;

/// Whether the drain task, `elapsed_nanos` after it started, releases what
/// it read without sending it.
pub fn warming_up(elapsed_nanos: u128) -> (r: bool)
    ensures
        r == (elapsed_nanos < WARM_UP_NANOS),
{
    elapsed_nanos < WARM_UP_NANOS
}

/// Whether a logging period is over `elapsed_nanos` after it began: the
/// counters are then logged and a new period starts.
pub fn log_period_over(elapsed_nanos: u128) -> (r: bool)
    ensures
        r == (elapsed_nanos >= LOG_PERIOD_NANOS),
{
    elapsed_nanos >= LOG_PERIOD_NANOS
}

/// How much of `available` queued bytes goes into the next report.
pub fn chunk_len(available: usize) -> (r: usize)
    ensures
        r == if available < CHUNK { available } else { CHUNK },
{
    if available < CHUNK { available } else { CHUNK }
}

/// Whether the drain task reads again right away after a chunk of `len`
/// bytes: only a full chunk suggests that more is queued.
pub fn drain_again(len: usize) -> (r: bool)
    ensures
        r == (len == CHUNK),
{
    len == CHUNK
}

impl DrainState {
    /// Nothing sent yet.
    pub fn new() -> (r: DrainState)
        ensures
            r == (DrainState { ttl: 0, drains: 0, ctr: 0, was_good: false }),
    {
        DrainState { ttl: 0, drains: 0, ctr: 0, was_good: false }
    }

    /// Whether a report that failed to send with `sent` is tolerated: a
    /// failure is only tolerated until the first report got through.
    pub open spec fn tolerates(self, sent: bool) -> bool {
        sent || !self.was_good
    }

    /// Accounts a report of `len` bytes whose sending succeeded or not: the
    /// byte and report counters and the sequence number move on (wrapping),
    /// and a success is remembered.
    pub fn sent_chunk(&mut self, len: usize, sent: bool)
        requires
            old(self).tolerates(sent),
        ensures
            final(self).ttl == (if old(self).ttl + len > usize::MAX {
                old(self).ttl + len - usize::MAX - 1
            } else {
                old(self).ttl + len
            }),
            final(self).drains == (if old(self).drains + 1 > usize::MAX { 0 } else { old(self).drains + 1 }),
            final(self).ctr == (old(self).ctr + 1) % 0x1_0000_0000,
            final(self).was_good == (old(self).was_good || sent),
    {
        self.ttl = self.ttl.wrapping_add(len);
        self.drains = self.drains.wrapping_add(1);
        if sent {
            self.was_good = true;
        }
        self.ctr = self.ctr.wrapping_add(1);
    }

    /// Starts a new logging period: the byte and report counters restart.
    pub fn new_period(&mut self)
        ensures
            *final(self) == (DrainState { ttl: 0, drains: 0, ..*old(self) }),
    {
        self.ttl = 0;
        self.drains = 0;
    }
}

// ---------------------------------------------------------------------------
// Running a worker task.

/// One thing a worker task does.
#[derive(Clone, Copy, Debug, PartialEq, Eq, Structural)]
pub enum WorkerAction {
    WaitStage,
    DeadlineStart { deadline: u64 },
    DeadlineStop,
    Sleep { ticks: u64 },
    Work { ticks: u64 },
    Yield,
    WaitTrigger,
    WakeTrigger,
}

/// What a worker does for one step.
pub open spec fn step_actions(step: Step, deadline: u64) -> Seq<WorkerAction> {
    match step {
        Step::SleepTicks { ticks } => seq![WorkerAction::Sleep { ticks: ticks as u64 }],
        Step::WorkTicks { ticks } => seq![WorkerAction::Work { ticks: ticks as u64 }],
        Step::Yield => seq![WorkerAction::Yield],
        Step::WaitTrigger => seq![WorkerAction::WaitTrigger],
        Step::WakeTrigger => seq![WorkerAction::WakeTrigger],
        Step::ManualDeadlineStart => seq![WorkerAction::DeadlineStart { deadline }, WorkerAction::Yield],
        Step::ManualDeadlineStop => seq![WorkerAction::DeadlineStop],
    }
}

/// What a worker does for a run of steps, in order.
pub open spec fn steps_actions(steps: Seq<Step>, deadline: u64) -> Seq<WorkerAction>
    decreases steps.len(),
{
    if steps.len() == 0 {
        Seq::empty()
    } else {
        steps_actions(steps.drop_last(), deadline) + step_actions(steps.last(), deadline)
    }
}

/// What a worker does in one pass over its steps: unless it times its
/// deadline by hand, the pass is framed by a deadline start and stop.
pub open spec fn pass_actions(cmd: StageCommand) -> Seq<WorkerAction> {
    let body = steps_actions(cmd.steps_seq(), cmd.deadline_ticks);
    if cmd.manual_start_stop {
        body
    } else {
        seq![WorkerAction::DeadlineStart { deadline: cmd.deadline_ticks }] + body + seq![WorkerAction::DeadlineStop]
    }
}

/// Whether a worker can run `cmd`: a looping worker needs steps, and
/// manual deadline steps are only allowed when deadlines are timed by hand.
pub open spec fn runnable(cmd: StageCommand) -> bool {
    &&& cmd.loops ==> cmd.steps_seq().len() > 0
    &&& forall|i: int| 0 <= i < cmd.steps_seq().len() ==> {
        let s = #[trigger] cmd.steps_seq()[i];
        (s == Step::ManualDeadlineStart || s == Step::ManualDeadlineStop) ==> cmd.manual_start_stop
    }
}

/// Whether a worker can run `cmd` (see [`runnable`]).
pub fn check_runnable(cmd: &StageCommand) -> (r: bool)
    ensures
        r == runnable(*cmd),
{
    let steps = steps_as_slice(&cmd.steps);
    if cmd.loops && steps.len() == 0 {
        return false;
    }
    let mut i: usize = 0;
    while i < steps.len()
        invariant
            i <= steps@.len(),
            steps@ == cmd.steps_seq(),
            cmd.loops ==> steps@.len() > 0,
            forall|j: int| 0 <= j < i ==> {
                let s = #[trigger] steps@[j];
                (s == Step::ManualDeadlineStart || s == Step::ManualDeadlineStop) ==> cmd.manual_start_stop
            },
        decreases steps@.len() - i,
    {
        let s = steps[i];
        if (s == Step::ManualDeadlineStart || s == Step::ManualDeadlineStop) && !cmd.manual_start_stop {
            assert(steps@[i as int] == s);
            return false;
        }
        i = i + 1;
    }
    true
}

/// The actions of one pass of a worker over the steps of `cmd`.
pub fn worker_pass(cmd: &StageCommand) -> (r: Vec<WorkerAction>)
    requires
        runnable(*cmd),
    ensures
        r@ == pass_actions(*cmd),
{
    let steps = steps_as_slice(&cmd.steps);
    let mut out: Vec<WorkerAction> = Vec::new();
    if !cmd.manual_start_stop {
        out.push(WorkerAction::DeadlineStart { deadline: cmd.deadline_ticks });
    }
    let ghost head = out@;
    let mut i: usize = 0;
    while i < steps.len()
        invariant
            i <= steps@.len(),
            steps@ == cmd.steps_seq(),
            out@ == head + steps_actions(steps@.take(i as int), cmd.deadline_ticks),
        decreases steps@.len() - i,
    {
        let ghost before = out@;
        match steps[i] {
            Step::SleepTicks { ticks } => out.push(WorkerAction::Sleep { ticks: ticks as u64 }),
            Step::WorkTicks { ticks } => out.push(WorkerAction::Work { ticks: ticks as u64 }),
            Step::Yield => out.push(WorkerAction::Yield),
            Step::WaitTrigger => out.push(WorkerAction::WaitTrigger),
            Step::WakeTrigger => out.push(WorkerAction::WakeTrigger),
            Step::ManualDeadlineStart => {
                out.push(WorkerAction::DeadlineStart { deadline: cmd.deadline_ticks });
                out.push(WorkerAction::Yield);
            },
            Step::ManualDeadlineStop => out.push(WorkerAction::DeadlineStop),
        }
        assert(steps@.take(i + 1).drop_last() =~= steps@.take(i as int));
        assert(out@ =~= before + step_actions(steps@[i as int], cmd.deadline_ticks));
        i = i + 1;
    }
    assert(steps@.take(steps@.len() as int) =~= steps@);
    if !cmd.manual_start_stop {
        out.push(WorkerAction::DeadlineStop);
    }
    assert(out@ =~= pass_actions(*cmd));
    out
}

/// What a worker does before its first pass: nothing runs until the
/// staged workers are started, then it sleeps for its start delay.
pub fn worker_prelude(cmd: &StageCommand) -> (r: Vec<WorkerAction>)
    requires
        cmd.loops ==> cmd.steps_seq().len() > 0,
    ensures
        r@ == seq![WorkerAction::WaitStage, WorkerAction::Sleep { ticks: cmd.start_delay_ticks }],
{
    let mut r = Vec::new();
    r.push(WorkerAction::WaitStage);
    r.push(WorkerAction::Sleep { ticks: cmd.start_delay_ticks });
    r
}

/// What a worker does once it ends: a worker that was halted stops its
/// deadline; one that completed its passes does nothing more.
pub fn worker_epilogue(halted: bool) -> (r: Vec<WorkerAction>)
    ensures
        r@ == (if halted { seq![WorkerAction::DeadlineStop] } else { Seq::<WorkerAction>::empty() }),
{
    let mut r = Vec::new();
    if halted {
        r.push(WorkerAction::DeadlineStop);
    }
    proof {
        if !halted {
            assert(r@ =~= Seq::<WorkerAction>::empty());
        }
    }
    r
}

/// After a pass: a looping worker sleeps for its loop delay and goes
/// again; otherwise it is done.
pub fn after_pass(cmd: &StageCommand) -> (r: Option<u64>)
    requires
        runnable(*cmd),
    ensures
        r == (if cmd.loops { Some(cmd.loop_delay_ticks) } else { None::<u64> }),
{
    if cmd.loops { Some(cmd.loop_delay_ticks) } else { None }
}

} // verus!
