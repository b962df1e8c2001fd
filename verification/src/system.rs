//! The host-side model of a traced executor, fed one trace event at a time.

use vstd::prelude::*;
use std::collections::HashMap;
use std::time::Instant;
use crate::icd::Event;
use crate::exec::{ExecData, ExecState, ExecTime};
use crate::task::{TaskData, TaskView, TaskState, TaskTime, DeadReport};
use crate::keys::{sorted_keys, strictly_increasing};

verus! {

broadcast use vstd::std_specs::hash::group_hash_axioms;

/// The statistics of one task over one reporting interval.
pub struct TaskReport {
    pub task_id: u32,
    pub readies: usize,
    pub name: String,
    pub time: TaskTime,
    pub dead: DeadReport,
}

/// The statistics of all tasks and of the executor over one interval.
pub struct IntervalReport {
    pub tasks: Vec<TaskReport>,
    pub exec_time: ExecTime,
    pub bytes: usize,
}

impl IntervalReport {
    /// Whether this is the report of the interval that ends in state `m`:
    /// the executor's time up to the current tick, the bytes counted, and
    /// each known task once, in increasing order of id, with its report.
    pub open spec fn reports(self, m: SystemModel) -> bool {
        &&& self.exec_time == m.executor.time.accrue(m.executor.state, m.current_tick)
        &&& self.bytes == m.bytes
        &&& strictly_increasing(self.tasks@.map_values(|tr: TaskReport| tr.task_id))
        &&& forall|k: u32| m.tasks.contains_key(k)
            <==> exists|i: int| 0 <= i < self.tasks@.len() && #[trigger] self.tasks@[i].task_id == k
        &&& forall|i: int| #![trigger self.tasks@[i]] 0 <= i < self.tasks@.len() ==> {
            let t = m.tasks[self.tasks@[i].task_id];
            &&& m.tasks.contains_key(self.tasks@[i].task_id)
            &&& self.tasks@[i].name@ == t.name
            &&& (self.tasks@[i].readies, self.tasks@[i].time, self.tasks@[i].dead) == t.report(m.current_tick)
        }
    }
}

/// Everything learnt from the trace so far.
#[derive(Debug)]
pub struct System {
    pub tasks: HashMap<u32, TaskData>,
    pub executor: ExecData,
    pub current_tick: u64,
    pub last_delta: Option<u64>,
    pub last_render: Option<Instant>,
    pub bytes: usize,
}

/// A move that the trace should not show, noted while handling an event.
#[derive(Clone, Copy, Debug, PartialEq, Eq, Structural)]
pub enum Warning {
    /// The executor went idle while idle.
    ExecIdleAgain,
    /// The executor started scheduling while scheduling.
    ExecSchedAgain,
    /// The executor started polling while polling.
    ExecPollAgain,
    /// A waiting task ended a run.
    WaitingToIdle,
    /// An idle task started to run without being made ready.
    IdleToActive,
}

/// The warning `w` when `cond` holds, else nothing.
pub open spec fn warn_if(cond: bool, w: Warning) -> Seq<Warning> {
    if cond { seq![w] } else { Seq::empty() }
}

/// The state of a [`System`] as a mathematical value.
pub struct SystemModel {
    pub tasks: Map<u32, TaskView>,
    pub executor: ExecData,
    pub current_tick: u64,
    pub last_delta: Option<u64>,
    pub bytes: usize,
}

impl SystemModel {
    /// Until the first `ExecutorPollStart`, relative ticks cannot be
    /// resolved and every other event is dropped.
    pub open spec fn ignores(self, evt: Event) -> bool {
        self.last_delta is None && !(evt is ExecutorPollStart)
    }

    /// The state in which an event that is not ignored is applied: the first
    /// `ExecutorPollStart` sets the reference tick and puts the executor in
    /// the polling state from that tick.
    pub open spec fn started(self, evt: Event) -> SystemModel {
        match evt {
            Event::ExecutorPollStart { tick } => if self.last_delta is None {
                SystemModel {
                    executor: ExecData { state: ExecState::Polling { since: tick }, ..self.executor },
                    current_tick: tick,
                    last_delta: Some(tick),
                    ..self
                }
            } else {
                self
            },
            _ => self,
        }
    }

    /// The known task `task_id`, or `fresh` when the task is new.
    pub open spec fn task_or(self, task_id: u32, fresh: TaskView) -> TaskView {
        if self.tasks.contains_key(task_id) { self.tasks[task_id] } else { fresh }
    }

    /// The absolute tick of a relative tick.
    pub open spec fn abs(self, tick: u64) -> u64 {
        (tick + self.last_delta.unwrap()) as u64
    }

    /// Whether the relative tick can be made absolute without overflow.
    pub open spec fn abs_ok(self, tick: u64) -> bool {
        tick + self.last_delta.unwrap() <= u64::MAX
    }

    /// Whether `evt` can be applied to this (started) state.
    pub open spec fn apply_ok(self, evt: Event) -> bool {
        match evt {
            Event::TaskNew { .. } => true,
            Event::TaskExecBegin { tick, task_id } => {
                let t = self.abs(tick);
                &&& self.abs_ok(tick)
                &&& self.executor.can_enter(ExecData::poll_at(t), t)
                &&& self.task_or(task_id, TaskView::fresh(task_id, TaskState::Active { since: t, pended: false })).can_set_active(t)
            },
            Event::TaskExecEnd { tick, task_id } => {
                let t = self.abs(tick);
                &&& self.abs_ok(tick)
                &&& self.executor.can_enter(ExecData::sched_at(t), t)
                &&& self.task_or(task_id, TaskView::fresh(task_id, TaskState::Idle { since: t })).can_set_idle(t)
            },
            Event::TaskReadyBegin { tick, task_id } => {
                let t = self.abs(tick);
                &&& self.abs_ok(tick)
                &&& self.task_or(task_id, TaskView::fresh(task_id, TaskState::Waiting { since: t })).can_set_waiting(t)
            },
            Event::ExecutorIdle { tick } => {
                let t = self.abs(tick);
                &&& self.abs_ok(tick)
                &&& self.executor.can_enter(ExecData::idle_at(t), t)
            },
            Event::ExecutorPollStart { tick } => self.executor.can_enter(ExecData::sched_at(tick), tick),
            Event::TaskIdentify { tick, .. } => self.abs_ok(tick),
            Event::DeadlineStart { tick, task_id, deadline } => {
                &&& self.abs_ok(tick)
                &&& self.tasks.contains_key(task_id) ==> self.tasks[task_id].can_start_deadline(self.abs(tick), deadline)
            },
            Event::DeadlineStop { tick, task_id } => {
                &&& self.abs_ok(tick)
                &&& self.tasks.contains_key(task_id) ==> self.tasks[task_id].can_stop_deadline(self.abs(tick))
            },
        }
    }

    /// The effect of `evt` on a started state. Relative ticks are made
    /// absolute with the reference tick; a task named by an event that
    /// changes its state is created when first seen.
    pub open spec fn apply(self, evt: Event) -> SystemModel {
        match evt {
            Event::TaskNew { .. } => self,
            Event::TaskExecBegin { tick, task_id } => {
                let t = self.abs(tick);
                let task = self.task_or(task_id, TaskView::fresh(task_id, TaskState::Active { since: t, pended: false }));
                SystemModel {
                    tasks: self.tasks.insert(task_id, task.set_active(t)),
                    executor: self.executor.enter(ExecData::poll_at(t), t),
                    current_tick: t,
                    ..self
                }
            },
            Event::TaskExecEnd { tick, task_id } => {
                let t = self.abs(tick);
                let task = self.task_or(task_id, TaskView::fresh(task_id, TaskState::Idle { since: t }));
                SystemModel {
                    tasks: self.tasks.insert(task_id, task.set_idle(t)),
                    executor: self.executor.enter(ExecData::sched_at(t), t),
                    current_tick: t,
                    ..self
                }
            },
            Event::TaskReadyBegin { tick, task_id } => {
                let t = self.abs(tick);
                let task = self.task_or(task_id, TaskView::fresh(task_id, TaskState::Waiting { since: t }));
                SystemModel {
                    tasks: self.tasks.insert(task_id, task.set_waiting(t)),
                    current_tick: t,
                    ..self
                }
            },
            Event::ExecutorIdle { tick } => {
                let t = self.abs(tick);
                SystemModel {
                    executor: self.executor.enter(ExecData::idle_at(t), t),
                    current_tick: t,
                    ..self
                }
            },
            Event::ExecutorPollStart { tick } => SystemModel {
                executor: self.executor.enter(ExecData::sched_at(tick), tick),
                current_tick: tick,
                last_delta: Some(tick),
                ..self
            },
            Event::TaskIdentify { tick, task_id, name } => SystemModel {
                tasks: if self.tasks.contains_key(task_id) {
                    self.tasks.insert(task_id, TaskView { name: name@, ..self.tasks[task_id] })
                } else {
                    self.tasks
                },
                current_tick: self.abs(tick),
                ..self
            },
            Event::DeadlineStart { tick, task_id, deadline } => SystemModel {
                tasks: if self.tasks.contains_key(task_id) {
                    self.tasks.insert(task_id, self.tasks[task_id].start_deadline(self.abs(tick), deadline))
                } else {
                    self.tasks
                },
                current_tick: self.abs(tick),
                ..self
            },
            Event::DeadlineStop { tick, task_id } => SystemModel {
                tasks: if self.tasks.contains_key(task_id) {
                    self.tasks.insert(task_id, self.tasks[task_id].stop_deadline(self.abs(tick)))
                } else {
                    self.tasks
                },
                current_tick: self.abs(tick),
                ..self
            },
        }
    }

    /// The unexpected moves that handling `evt` notes, in the order met:
    /// the executor's move first, then the task's.
    pub open spec fn warnings(self, evt: Event) -> Seq<Warning> {
        if self.ignores(evt) {
            Seq::empty()
        } else {
            let s = self.started(evt);
            match evt {
                Event::TaskExecBegin { tick, task_id } => {
                    let t = s.abs(tick);
                    let task = s.task_or(task_id, TaskView::fresh(task_id, TaskState::Active { since: t, pended: false }));
                    warn_if(s.executor.state is Polling, Warning::ExecPollAgain)
                        + warn_if(task.state is Idle, Warning::IdleToActive)
                },
                Event::TaskExecEnd { tick, task_id } => {
                    let t = s.abs(tick);
                    let task = s.task_or(task_id, TaskView::fresh(task_id, TaskState::Idle { since: t }));
                    warn_if(s.executor.state is Scheduling, Warning::ExecSchedAgain)
                        + warn_if(task.state is Waiting, Warning::WaitingToIdle)
                },
                Event::ExecutorIdle { .. } => warn_if(s.executor.state is Idle, Warning::ExecIdleAgain),
                Event::ExecutorPollStart { .. } => warn_if(s.executor.state is Scheduling, Warning::ExecSchedAgain),
                _ => Seq::empty(),
            }
        }
    }

    /// Whether `evt`, carried in `bytes` bytes, can be handled without a
    /// backwards tick or an overflow.
    pub open spec fn can_handle(self, evt: Event, bytes: usize) -> bool {
        self.ignores(evt) || {
            let s = self.started(evt);
            &&& s.bytes + bytes <= usize::MAX
            &&& s.apply_ok(evt)
        }
    }

    /// The state after `evt`, carried in `bytes` bytes: an ignored event
    /// changes nothing; otherwise its bytes are counted and it is applied.
    pub open spec fn handle(self, evt: Event, bytes: usize) -> SystemModel {
        if self.ignores(evt) {
            self
        } else {
            let s = self.started(evt);
            SystemModel { bytes: (s.bytes + bytes) as usize, ..s }.apply(evt)
        }
    }

    /// Whether a report can be taken at the current tick.
    pub open spec fn can_capture(self) -> bool {
        &&& self.executor.can_report(self.current_tick)
        &&& forall|k: u32| #[trigger] self.tasks.contains_key(k) ==> self.tasks[k].can_report(self.current_tick)
    }

    /// The state after a report taken at the current tick: every task and
    /// the executor start a new interval, and no byte is counted.
    pub open spec fn after_capture(self) -> SystemModel {
        SystemModel {
            tasks: Map::new(
                |k: u32| self.tasks.contains_key(k),
                |k: u32| self.tasks[k].after_report(self.current_tick),
            ),
            executor: ExecData { state: self.executor.state.restarted(self.current_tick), time: ExecTime::zero() },
            bytes: 0,
            ..self
        }
    }
}

/// `std::time::Instant`, an opaque point in time.
#[verifier::external_type_specification]
#[verifier::external_body]
pub struct ExInstant(Instant);

/// `std::time::Instant::now`: the current time. Nothing is stated of it.
#[verifier::external_body]
fn instant_now() -> Instant {
    Instant::now()
}

/// `std::time::Instant::elapsed`: the time since `i`. Nothing is stated of
/// it.
#[verifier::external_body]
fn instant_elapsed(i: &Instant) -> core::time::Duration {
    i.elapsed()
}

/// `std::time::Duration::as_nanos`: the length of `d` in whole nanoseconds.
/// Nothing is stated of it, as a duration is opaque here.
#[verifier::external_body]
fn duration_as_nanos(d: &core::time::Duration) -> u128 {
    d.as_nanos()
}

/// The shortest time between two rendered reports, in nanoseconds.
pub const RENDER_INTERVAL_NANOS: u128 = 1_000_000_000;

/// Whether a report is due after `elapsed_nanos` nanoseconds since the
/// last one: more than a second must have passed.
pub fn render_due(elapsed_nanos: u128) -> (due: bool)
    ensures
        due == (elapsed_nanos > RENDER_INTERVAL_NANOS),
{
    elapsed_nanos > RENDER_INTERVAL_NANOS
}

impl Default for System {
    fn default() -> (r: System)
        ensures
            r.model() == (SystemModel {
                tasks: Map::empty(),
                executor: ExecData { state: ExecState::Idle { since: 0 }, time: ExecTime::zero() },
                current_tick: 0,
                last_delta: None,
                bytes: 0,
            }),
            r.last_render is None,
    {
        let r = System {
            tasks: HashMap::new(),
            executor: ExecData { state: ExecState::Idle { since: 0 }, time: ExecTime::default() },
            current_tick: 0,
            last_delta: None,
            last_render: None,
            bytes: 0,
        };
        assert(r.model().tasks =~= Map::empty());
        r
    }
}

impl System {
    /// The state of the system as a mathematical value.
    pub open spec fn model(&self) -> SystemModel {
        SystemModel {
            tasks: Map::new(|k: u32| self.tasks@.contains_key(k), |k: u32| self.tasks@[k]@),
            executor: self.executor,
            current_tick: self.current_tick,
            last_delta: self.last_delta,
            bytes: self.bytes,
        }
    }

    /// Handles one trace event, carried in `bytes` bytes of the stream, and
    /// returns the unexpected moves it showed.
    pub fn handle_evt(&mut self, evt: Event, bytes: usize) -> (warnings: Vec<Warning>)
        requires
            old(self).model().can_handle(evt, bytes),
        ensures
            final(self).model() == old(self).model().handle(evt, bytes),
            final(self).last_render == old(self).last_render,
            warnings@ == old(self).model().warnings(evt),
    {
        let ghost m0 = self.model();
        let mut warnings: Vec<Warning> = Vec::new();
        let last_delta = match self.last_delta {
            None => {
                if let Event::ExecutorPollStart { tick } = evt {
                    self.executor.state = ExecState::Polling { since: tick };
                    self.current_tick = tick;
                    self.last_delta = Some(tick);
                    tick
                } else {
                    return warnings;
                }
            },
            Some(ld) => ld,
        };
        let ghost m1 = m0.started(evt);
        assert(self.model().tasks =~= m1.tasks);
        self.bytes = self.bytes + bytes;
        let ghost m2 = SystemModel { bytes: (m1.bytes + bytes) as usize, ..m1 };
        assert(self.model() == m2);
        match evt {
            Event::TaskNew { .. } => {},
            Event::TaskExecBegin { tick, task_id } => {
                let tick = tick + last_delta;
                self.current_tick = tick;
                if self.executor.set_polling(tick) {
                    warnings.push(Warning::ExecPollAgain);
                }
                let mut tsk = match self.tasks.remove(&task_id) {
                    Some(t) => t,
                    None => TaskData::new_active(task_id, tick),
                };
                if tsk.set_active(tick) {
                    warnings.push(Warning::IdleToActive);
                }
                self.tasks.insert(task_id, tsk);
                assert(self.model().tasks =~= m2.apply(evt).tasks);
            },
            Event::TaskExecEnd { tick, task_id } => {
                let tick = tick + last_delta;
                self.current_tick = tick;
                if self.executor.set_sched(tick) {
                    warnings.push(Warning::ExecSchedAgain);
                }
                let mut tsk = match self.tasks.remove(&task_id) {
                    Some(t) => t,
                    None => TaskData::new_idle(task_id, tick),
                };
                if tsk.set_idle(tick) {
                    warnings.push(Warning::WaitingToIdle);
                }
                self.tasks.insert(task_id, tsk);
                assert(self.model().tasks =~= m2.apply(evt).tasks);
            },
            Event::TaskReadyBegin { tick, task_id } => {
                let tick = tick + last_delta;
                self.current_tick = tick;
                let mut tsk = match self.tasks.remove(&task_id) {
                    Some(t) => t,
                    None => TaskData::new_waiting(task_id, tick),
                };
                tsk.set_waiting(tick);
                self.tasks.insert(task_id, tsk);
                assert(self.model().tasks =~= m2.apply(evt).tasks);
            },
            Event::ExecutorIdle { tick } => {
                let tick = tick + last_delta;
                self.current_tick = tick;
                if self.executor.set_idle(tick) {
                    warnings.push(Warning::ExecIdleAgain);
                }
            },
            Event::ExecutorPollStart { tick } => {
                self.last_delta = Some(tick);
                self.current_tick = tick;
                if self.executor.set_sched(tick) {
                    warnings.push(Warning::ExecSchedAgain);
                }
            },
            Event::TaskIdentify { tick, task_id, name } => {
                let tick = tick + last_delta;
                self.current_tick = tick;
                if let Some(mut t) = self.tasks.remove(&task_id) {
                    if t.name != name {
                        t.name = name;
                    }
                    self.tasks.insert(task_id, t);
                }
                assert(self.model().tasks =~= m2.apply(evt).tasks);
            },
            Event::DeadlineStart { tick, task_id, deadline } => {
                let tick = tick + last_delta;
                self.current_tick = tick;
                if let Some(mut t) = self.tasks.remove(&task_id) {
                    t.start_deadline(tick, deadline);
                    self.tasks.insert(task_id, t);
                }
                assert(self.model().tasks =~= m2.apply(evt).tasks);
            },
            Event::DeadlineStop { tick, task_id } => {
                let tick = tick + last_delta;
                self.current_tick = tick;
                if let Some(mut t) = self.tasks.remove(&task_id) {
                    t.stop_deadline(tick);
                    self.tasks.insert(task_id, t);
                }
                assert(self.model().tasks =~= m2.apply(evt).tasks);
            },
        }
        assert(warnings@ =~= m0.warnings(evt));
        warnings
    }

    /// Takes the statistics of the interval up to the current tick and
    /// starts a new one. Tasks are reported in increasing order of id, each
    /// known task once.
    pub fn capture_report(&mut self) -> (r: IntervalReport)
        requires
            old(self).model().can_capture(),
        ensures
            final(self).model() == old(self).model().after_capture(),
            final(self).last_render == old(self).last_render,
            r.reports(old(self).model()),
    {
        let ghost m0 = self.model();
        let now = self.current_tick;
        let keys = sorted_keys(&self.tasks);
        let mut out: Vec<TaskReport> = Vec::new();
        let n = keys.len();
        for i in 0..n
            invariant
                n == keys@.len(),
                now == m0.current_tick,
                m0.can_capture(),
                strictly_increasing(keys@),
                forall|k: u32| m0.tasks.contains_key(k) <==> keys@.contains(k),
                self.executor == m0.executor,
                self.bytes == m0.bytes,
                self.current_tick == m0.current_tick,
                self.last_delta == m0.last_delta,
                self.last_render == old(self).last_render,
                forall|k: u32| self.tasks@.contains_key(k) <==> m0.tasks.contains_key(k),
                forall|k: u32| #[trigger] self.tasks@.contains_key(k) ==> {
                    if (exists|j: int| 0 <= j < i && keys@[j] == k) {
                        self.tasks@[k]@ == m0.tasks[k].after_report(now)
                    } else {
                        self.tasks@[k]@ == m0.tasks[k]
                    }
                },
                out@.len() == i,
                forall|j: int| #![trigger out@[j]] 0 <= j < i ==> {
                    let t = m0.tasks[keys@[j]];
                    &&& out@[j].task_id == keys@[j]
                    &&& out@[j].name@ == t.name
                    &&& (out@[j].readies, out@[j].time, out@[j].dead) == t.report(now)
                },
        {
            let k = keys[i];
            assert(keys@.contains(k));
            assert(forall|j: int| 0 <= j < i ==> keys@[j] != k);
            let removed = self.tasks.remove(&k);
            let mut t = match removed {
                Some(t) => t,
                None => {
                    assert(false);
                    return IntervalReport { tasks: out, exec_time: ExecTime::default(), bytes: 0 };
                },
            };
            let (readies, time, dead) = t.take_report(now);
            let name = t.name.clone();
            out.push(TaskReport { task_id: k, readies, name, time, dead });
            self.tasks.insert(k, t);
            assert forall|kk: u32| #[trigger] self.tasks@.contains_key(kk) implies {
                if (exists|j: int| 0 <= j < i + 1 && keys@[j] == kk) {
                    self.tasks@[kk]@ == m0.tasks[kk].after_report(now)
                } else {
                    self.tasks@[kk]@ == m0.tasks[kk]
                }
            } by {
                if kk != k {
                    if exists|j: int| 0 <= j < i + 1 && keys@[j] == kk {
                        let j = choose|j: int| 0 <= j < i + 1 && keys@[j] == kk;
                        assert(j < i);
                    }
                } else {
                    assert(keys@[i as int] == k);
                }
            }
        }
        let exec_time = self.executor.take_report(now);
        let bytes = self.bytes;
        self.bytes = 0;
        proof {
            assert(out@.map_values(|tr: TaskReport| tr.task_id) =~= keys@);
            assert forall|k: u32| m0.tasks.contains_key(k)
                implies exists|i: int| 0 <= i < out@.len() && #[trigger] out@[i].task_id == k by {
                assert(keys@.contains(k));
                let j = choose|j: int| 0 <= j < keys@.len() && keys@[j] == k;
                assert(out@[j].task_id == k);
            }
            assert forall|i: int| 0 <= i < out@.len() implies m0.tasks.contains_key(
                #[trigger] out@[i].task_id,
            ) by {
                assert(out@[i].task_id == keys@[i]);
                assert(keys@.contains(keys@[i]));
            }
            assert(self.model().tasks =~= m0.after_capture().tasks);
        }
        IntervalReport { tasks: out, exec_time, bytes }
    }

    /// Starts the render clock on the first call, and returns how many
    /// nanoseconds have passed since the last report (or since the clock
    /// started).
    pub fn render_clock(&mut self) -> (elapsed_nanos: u128)
        ensures
            final(self).model() == old(self).model(),
            final(self).last_render is Some,
            old(self).last_render is Some ==> final(self).last_render == old(self).last_render,
    {
        let last = match self.last_render {
            Some(l) => l,
            None => {
                let n = instant_now();
                self.last_render = Some(n);
                n
            },
        };
        let elapsed = instant_elapsed(&last);
        duration_as_nanos(&elapsed)
    }

    /// Restarts the render clock from now.
    pub fn restart_render_clock(&mut self)
        ensures
            final(self).model() == old(self).model(),
            final(self).last_render is Some,
    {
        self.last_render = Some(instant_now());
    }

    /// Takes the report of the interval when `elapsed_nanos` since the last
    /// one make it due (more than a second), and otherwise changes nothing.
    pub fn render_if_due(&mut self, elapsed_nanos: u128) -> (r: Option<IntervalReport>)
        requires
            elapsed_nanos > RENDER_INTERVAL_NANOS ==> old(self).model().can_capture(),
        ensures
            (r is Some) == (elapsed_nanos > RENDER_INTERVAL_NANOS),
            r matches Some(rpt) ==> rpt.reports(old(self).model()) && final(self).model()
                == old(self).model().after_capture(),
            r is None ==> final(self).model() == old(self).model(),
            final(self).last_render == old(self).last_render,
    {
        if render_due(elapsed_nanos) {
            Some(self.capture_report())
        } else {
            None
        }
    }

    /// Renders when due: once more than a second has passed since the last
    /// report, the interval is captured and handed back to be printed, and
    /// the clock restarts. The first call only starts the clock. How much
    /// time passed is read from the clock; the decision on it is
    /// [`System::render_if_due`].
    pub fn check_render(&mut self) -> (r: Option<IntervalReport>)
        requires
            old(self).model().can_capture(),
        ensures
            final(self).last_render is Some,
            r matches Some(rpt) ==> rpt.reports(old(self).model()) && final(self).model()
                == old(self).model().after_capture(),
            r is None ==> final(self).model() == old(self).model(),
            r is None && old(self).last_render is Some ==> final(self).last_render == old(self).last_render,
    {
        let elapsed = self.render_clock();
        let r = self.render_if_due(elapsed);
        if r.is_some() {
            self.restart_render_clock();
        }
        r
    }

    /// Whether [`System::handle_evt`] can take `evt`, carried in `bytes`
    /// bytes: tested before the call.
    pub fn can_handle_evt(&self, evt: &Event, bytes: usize) -> (r: bool)
        ensures
            r == self.model().can_handle(*evt, bytes),
    {
        let ghost m = self.model();
        let (d, exec) = match self.last_delta {
            Some(ld) => (ld, self.executor),
            None => match evt {
                Event::ExecutorPollStart { tick } => (
                    *tick,
                    ExecData { state: ExecState::Polling { since: *tick }, time: self.executor.time },
                ),
                _ => {
                    return true;
                },
            },
        };
        let ghost s = m.started(*evt);
        assert(s.last_delta == Some(d) && s.executor == exec && s.tasks == m.tasks && s.bytes == m.bytes);
        if bytes > usize::MAX - self.bytes {
            return false;
        }
        match evt {
            Event::TaskNew { .. } => true,
            Event::TaskExecBegin { tick, task_id } => {
                if *tick > u64::MAX - d {
                    return false;
                }
                let t = *tick + d;
                exec.can_enter_at(ExecState::Polling { since: t }, t) && match self.tasks.get(task_id) {
                    Some(task) => task.can_set_active_at(t),
                    None => true,
                }
            },
            Event::TaskExecEnd { tick, task_id } => {
                if *tick > u64::MAX - d {
                    return false;
                }
                let t = *tick + d;
                exec.can_enter_at(ExecState::Scheduling { since: t }, t) && match self.tasks.get(task_id) {
                    Some(task) => task.can_set_idle_at(t),
                    None => true,
                }
            },
            Event::TaskReadyBegin { tick, task_id } => {
                if *tick > u64::MAX - d {
                    return false;
                }
                let t = *tick + d;
                match self.tasks.get(task_id) {
                    Some(task) => task.can_set_waiting_at(t),
                    None => true,
                }
            },
            Event::ExecutorIdle { tick } => {
                if *tick > u64::MAX - d {
                    return false;
                }
                let t = *tick + d;
                exec.can_enter_at(ExecState::Idle { since: t }, t)
            },
            Event::ExecutorPollStart { tick } => exec.can_enter_at(ExecState::Scheduling { since: *tick }, *tick),
            Event::TaskIdentify { tick, .. } => *tick <= u64::MAX - d,
            Event::DeadlineStart { tick, task_id, deadline } => {
                if *tick > u64::MAX - d {
                    return false;
                }
                let t = *tick + d;
                match self.tasks.get(task_id) {
                    Some(task) => task.can_start_deadline_at(t, *deadline),
                    None => true,
                }
            },
            Event::DeadlineStop { tick, task_id } => {
                if *tick > u64::MAX - d {
                    return false;
                }
                let t = *tick + d;
                match self.tasks.get(task_id) {
                    Some(task) => task.can_stop_deadline_at(t),
                    None => true,
                }
            },
        }
    }

    /// Whether a report can be taken now: tested before
    /// [`System::capture_report`].
    pub fn can_capture_now(&self) -> (r: bool)
        ensures
            r == self.model().can_capture(),
    {
        let now = self.current_tick;
        if !self.executor.time.accrue_fits(self.executor.state, now) {
            return false;
        }
        let keys = sorted_keys(&self.tasks);
        let mut i: usize = 0;
        while i < keys.len()
            invariant
                i <= keys@.len(),
                now == self.current_tick,
                forall|k: u32| self.tasks@.contains_key(k) <==> keys@.contains(k),
                forall|j: int| 0 <= j < i ==> self.tasks@[#[trigger] keys@[j]]@.can_report(now),
            decreases keys@.len() - i,
        {
            let k = keys[i];
            assert(keys@.contains(k));
            let t = self.tasks.get(&k).unwrap();
            if !t.can_report_at(now) {
                assert(self.model().tasks.contains_key(k));
                return false;
            }
            i = i + 1;
        }
        assert forall|k: u32| #[trigger] self.model().tasks.contains_key(k) implies self.model().tasks[k].can_report(
            now,
        ) by {
            assert(keys@.contains(k));
            let j = choose|j: int| 0 <= j < keys@.len() && keys@[j] == k;
            assert(self.tasks@[keys@[j]]@.can_report(now));
        }
        true
    }
}

} // verus!
