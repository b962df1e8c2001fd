//! Accounting of where each task spends its time, and of its deadlines.

use vstd::prelude::*;
use crate::hex::{make_task_name, task_name};

verus! {

/// What a task is doing, and since which tick.
///
/// `pended` records that the task was made ready again while it ran, so
/// that it waits, rather than idles, once it ends.
#[derive(Clone, Copy, Debug, PartialEq, Eq, Structural)]
pub enum TaskState {
    Idle { since: u64 },
    Waiting { since: u64 },
    Active { since: u64, pended: bool },
}

/// Ticks a task spent in each of its states.
#[derive(Clone, Copy, Debug, PartialEq, Eq, Structural)]
pub struct TaskTime {
    pub ticks_active: u64,
    pub ticks_waiting: u64,
    pub ticks_idle: u64,
}

/// Whether a deadline is being timed for a task.
#[derive(Clone, Copy, Debug, PartialEq, Eq, Structural)]
pub enum DeadlineState {
    Inactive,
    Active { at: u64, deadline_at: u64 },
}

/// The deadline of a task and the statistics of the deadlines it finished.
#[derive(Clone, Copy, Debug, PartialEq, Eq, Structural)]
pub struct DeadlineData {
    pub deadstate: DeadlineState,
    pub deadlines_retired: usize,
    pub deadlines_met: usize,
    pub deadlines_violated: usize,
    pub deadline_deviant_ticks: u64,
}

/// The deadline statistics of one reporting interval.
#[derive(Clone, Copy, Debug, PartialEq, Eq, Structural)]
pub struct DeadReport {
    pub deadlines_retired: usize,
    pub deadlines_met: usize,
    pub deadlines_violated: usize,
    pub deadline_deviant_ticks: u64,
}

/// Everything known about one traced task.
#[derive(Clone, Debug)]
pub struct TaskData {
    pub name: String,
    pub readies: usize,
    pub time: TaskTime,
    pub state: TaskState,
    pub dead: DeadlineData,
}

/// A task as a mathematical value.
pub struct TaskView {
    pub name: Seq<char>,
    pub readies: usize,
    pub time: TaskTime,
    pub state: TaskState,
    pub dead: DeadlineData,
}

impl View for TaskData {
    type V = TaskView;

    open spec fn view(&self) -> TaskView {
        TaskView {
            name: self.name@,
            readies: self.readies,
            time: self.time,
            state: self.state,
            dead: self.dead,
        }
    }
}

impl TaskState {
    /// The tick at which the current state was entered.
    pub open spec fn since(self) -> u64 {
        match self {
            TaskState::Idle { since } => since,
            TaskState::Waiting { since } => since,
            TaskState::Active { since, .. } => since,
        }
    }

    /// The same state, entered at `tick`.
    pub open spec fn restarted(self, tick: u64) -> TaskState {
        match self {
            TaskState::Idle { .. } => TaskState::Idle { since: tick },
            TaskState::Waiting { .. } => TaskState::Waiting { since: tick },
            TaskState::Active { pended, .. } => TaskState::Active { since: tick, pended },
        }
    }
}

impl TaskTime {
    /// All time accounted.
    pub open spec fn total(self) -> int {
        self.ticks_active + self.ticks_waiting + self.ticks_idle
    }

    /// The counter that time spent in `state` is added to.
    pub open spec fn counter(self, state: TaskState) -> u64 {
        match state {
            TaskState::Idle { .. } => self.ticks_idle,
            TaskState::Waiting { .. } => self.ticks_waiting,
            TaskState::Active { .. } => self.ticks_active,
        }
    }

    /// Whether the time spent in `state` up to `upto` can be added to its
    /// counter without a backwards tick or an overflow.
    pub open spec fn can_accrue(self, state: TaskState, upto: u64) -> bool {
        &&& state.since() <= upto
        &&& self.counter(state) + (upto - state.since()) <= u64::MAX
    }

    /// The time with the ticks spent in `state` up to `upto` added to the
    /// counter of that state.
    pub open spec fn accrue(self, state: TaskState, upto: u64) -> TaskTime {
        let delta = upto - state.since();
        match state {
            TaskState::Idle { .. } => TaskTime { ticks_idle: (self.ticks_idle + delta) as u64, ..self },
            TaskState::Waiting { .. } => TaskTime { ticks_waiting: (self.ticks_waiting + delta) as u64, ..self },
            TaskState::Active { .. } => TaskTime { ticks_active: (self.ticks_active + delta) as u64, ..self },
        }
    }

    /// No time accounted.
    pub open spec fn zero() -> TaskTime {
        TaskTime { ticks_active: 0, ticks_waiting: 0, ticks_idle: 0 }
    }
}

impl TaskTime {
    /// Whether the time spent in `state` up to `upto` can be accounted.
    pub fn accrue_fits(&self, state: TaskState, upto: u64) -> (r: bool)
        ensures
            r == self.can_accrue(state, upto),
    {
        let (since, counter) = match state {
            TaskState::Idle { since } => (since, self.ticks_idle),
            TaskState::Waiting { since } => (since, self.ticks_waiting),
            TaskState::Active { since, .. } => (since, self.ticks_active),
        };
        since <= upto && counter <= u64::MAX - (upto - since)
    }
}

impl Default for TaskTime {
    fn default() -> (r: TaskTime)
        ensures
            r == TaskTime::zero(),
    {
        TaskTime { ticks_active: 0, ticks_waiting: 0, ticks_idle: 0 }
    }
}

impl Default for DeadlineState {
    fn default() -> (r: DeadlineState)
        ensures
            r == DeadlineState::Inactive,
    {
        DeadlineState::Inactive
    }
}

impl DeadlineData {
    /// No deadline running and no statistics.
    pub open spec fn zero() -> DeadlineData {
        DeadlineData {
            deadstate: DeadlineState::Inactive,
            deadlines_retired: 0,
            deadlines_met: 0,
            deadlines_violated: 0,
            deadline_deviant_ticks: 0,
        }
    }

    /// Every finished deadline was either met or violated.
    pub open spec fn counts_consistent(self) -> bool {
        self.deadlines_retired == self.deadlines_met + self.deadlines_violated
    }
}

impl Default for DeadlineData {
    fn default() -> (r: DeadlineData)
        ensures
            r == DeadlineData::zero(),
    {
        DeadlineData {
            deadstate: DeadlineState::Inactive,
            deadlines_retired: 0,
            deadlines_met: 0,
            deadlines_violated: 0,
            deadline_deviant_ticks: 0,
        }
    }
}

/// Adds the ticks spent in `state` up to `upto` to the counter of that state.
fn accrue_task(time: &mut TaskTime, state: TaskState, upto: u64)
    requires
        old(time).can_accrue(state, upto),
    ensures
        *final(time) == old(time).accrue(state, upto),
{
    match state {
        TaskState::Idle { since } => {
            time.ticks_idle = time.ticks_idle + (upto - since);
        },
        TaskState::Waiting { since } => {
            time.ticks_waiting = time.ticks_waiting + (upto - since);
        },
        TaskState::Active { since, .. } => {
            time.ticks_active = time.ticks_active + (upto - since);
        },
    }
}

impl TaskView {
    /// A task first seen at `tick` in `state`, with nothing accounted.
    pub open spec fn fresh(task_id: u32, state: TaskState) -> TaskView {
        TaskView {
            name: task_name(task_id),
            readies: 0,
            time: TaskTime::zero(),
            state,
            dead: DeadlineData::zero(),
        }
    }

    /// Whether the task can end its run at `tick`.
    pub open spec fn can_set_idle(self, tick: u64) -> bool {
        self.state is Active ==> self.time.can_accrue(self.state, tick)
    }

    /// The task after its run ended at `tick`: the run is accounted, and the
    /// task waits if it was made ready while running, else it idles. From
    /// any other state the task idles from `tick` and nothing is accounted.
    pub open spec fn set_idle(self, tick: u64) -> TaskView {
        match self.state {
            TaskState::Active { pended, .. } => TaskView {
                time: self.time.accrue(self.state, tick),
                state: if pended { TaskState::Waiting { since: tick } } else { TaskState::Idle { since: tick } },
                ..self
            },
            _ => TaskView { state: TaskState::Idle { since: tick }, ..self },
        }
    }

    /// Whether the task can be made ready at `tick`.
    pub open spec fn can_set_waiting(self, tick: u64) -> bool {
        self.state is Idle ==> {
            &&& self.readies < usize::MAX
            &&& self.time.can_accrue(self.state, tick)
        }
    }

    /// The task after it was made ready at `tick`: an idle task counts a
    /// wake-up, accounts its idle time and waits; a running task is marked
    /// as made ready again; a waiting task is unchanged.
    pub open spec fn set_waiting(self, tick: u64) -> TaskView {
        match self.state {
            TaskState::Idle { .. } => TaskView {
                readies: (self.readies + 1) as usize,
                time: self.time.accrue(self.state, tick),
                state: TaskState::Waiting { since: tick },
                ..self
            },
            TaskState::Waiting { .. } => self,
            TaskState::Active { since, .. } => TaskView {
                state: TaskState::Active { since, pended: true },
                ..self
            },
        }
    }

    /// Whether the task can start running at `tick`.
    pub open spec fn can_set_active(self, tick: u64) -> bool {
        self.state is Waiting ==> self.time.can_accrue(self.state, tick)
    }

    /// The task after it started running at `tick`: the wait is accounted
    /// if it was waiting; in every case it runs from `tick`, not made ready
    /// again.
    pub open spec fn set_active(self, tick: u64) -> TaskView {
        TaskView {
            time: if self.state is Waiting { self.time.accrue(self.state, tick) } else { self.time },
            state: TaskState::Active { since: tick, pended: false },
            ..self
        }
    }

    /// Whether a deadline can be started at `now` with duration `dur`: none
    /// is running and its end fits in a tick.
    pub open spec fn can_start_deadline(self, now: u64, dur: u64) -> bool {
        &&& self.dead.deadstate is Inactive
        &&& now + dur <= u64::MAX
    }

    /// The task with a deadline running from `now` that ends at `now + dur`.
    pub open spec fn start_deadline(self, now: u64, dur: u64) -> TaskView {
        TaskView {
            dead: DeadlineData {
                deadstate: DeadlineState::Active { at: now, deadline_at: (now + dur) as u64 },
                ..self.dead
            },
            ..self
        }
    }

    /// Whether the running deadline, if any, can be finished at `now`
    /// without a counter overflow.
    pub open spec fn can_stop_deadline(self, now: u64) -> bool {
        self.dead.deadstate matches DeadlineState::Active { deadline_at, .. } ==> {
            &&& self.dead.deadlines_retired < usize::MAX
            &&& now > deadline_at ==> {
                &&& self.dead.deadlines_violated < usize::MAX
                &&& self.dead.deadline_deviant_ticks + (now - deadline_at) <= u64::MAX
            }
            &&& now <= deadline_at ==> self.dead.deadlines_met < usize::MAX
        }
    }

    /// The task after its deadline, if one runs, finished at `now`: it is
    /// counted as met when `now` is not past its end, and otherwise as
    /// violated, with the ticks by which it was overrun added up.
    pub open spec fn stop_deadline(self, now: u64) -> TaskView {
        match self.dead.deadstate {
            DeadlineState::Inactive => self,
            DeadlineState::Active { deadline_at, .. } => TaskView {
                dead: if now > deadline_at {
                    DeadlineData {
                        deadstate: DeadlineState::Inactive,
                        deadlines_retired: (self.dead.deadlines_retired + 1) as usize,
                        deadlines_violated: (self.dead.deadlines_violated + 1) as usize,
                        deadline_deviant_ticks: (self.dead.deadline_deviant_ticks + (now - deadline_at)) as u64,
                        ..self.dead
                    }
                } else {
                    DeadlineData {
                        deadstate: DeadlineState::Inactive,
                        deadlines_retired: (self.dead.deadlines_retired + 1) as usize,
                        deadlines_met: (self.dead.deadlines_met + 1) as usize,
                        ..self.dead
                    }
                },
                ..self
            },
        }
    }

    /// Whether a report can be taken at `now`.
    pub open spec fn can_report(self, now: u64) -> bool {
        self.time.can_accrue(self.state, now)
    }

    /// What a report taken at `now` holds: the wake-ups, the time accounted
    /// up to `now` and the deadline statistics of the interval.
    pub open spec fn report(self, now: u64) -> (usize, TaskTime, DeadReport) {
        (
            self.readies,
            self.time.accrue(self.state, now),
            DeadReport {
                deadlines_retired: self.dead.deadlines_retired,
                deadlines_met: self.dead.deadlines_met,
                deadlines_violated: self.dead.deadlines_violated,
                deadline_deviant_ticks: self.dead.deadline_deviant_ticks,
            },
        )
    }

    /// The task after a report taken at `now`: it stays in its state, now
    /// counted from `now`, its deadline keeps running, and all counters
    /// start again from zero.
    pub open spec fn after_report(self, now: u64) -> TaskView {
        TaskView {
            readies: 0,
            time: TaskTime::zero(),
            state: self.state.restarted(now),
            dead: DeadlineData {
                deadstate: self.dead.deadstate,
                deadlines_retired: 0,
                deadlines_met: 0,
                deadlines_violated: 0,
                deadline_deviant_ticks: 0,
            },
            ..self
        }
    }
}

impl TaskData {
    /// A task first seen at `tick` while idle.
    pub fn new_idle(task_id: u32, tick: u64) -> (r: Self)
        ensures
            r@ == TaskView::fresh(task_id, TaskState::Idle { since: tick }),
    {
        TaskData {
            name: make_task_name(task_id),
            readies: 0,
            time: TaskTime::default(),
            state: TaskState::Idle { since: tick },
            dead: DeadlineData::default(),
        }
    }

    /// A task first seen at `tick` while waiting to run.
    pub fn new_waiting(task_id: u32, tick: u64) -> (r: Self)
        ensures
            r@ == TaskView::fresh(task_id, TaskState::Waiting { since: tick }),
    {
        TaskData {
            name: make_task_name(task_id),
            readies: 0,
            time: TaskTime::default(),
            state: TaskState::Waiting { since: tick },
            dead: DeadlineData::default(),
        }
    }

    /// A task first seen at `tick` while running.
    pub fn new_active(task_id: u32, tick: u64) -> (r: Self)
        ensures
            r@ == TaskView::fresh(task_id, TaskState::Active { since: tick, pended: false }),
    {
        TaskData {
            name: make_task_name(task_id),
            readies: 0,
            time: TaskTime::default(),
            state: TaskState::Active { since: tick, pended: false },
            dead: DeadlineData::default(),
        }
    }

    /// Whether the task's run can end at `tick` (see [`TaskView::can_set_idle`]).
    pub fn can_set_idle_at(&self, tick: u64) -> (r: bool)
        ensures
            r == self@.can_set_idle(tick),
    {
        !matches!(self.state, TaskState::Active { .. }) || self.time.accrue_fits(self.state, tick)
    }

    /// Whether the task can be made ready at `tick`.
    pub fn can_set_waiting_at(&self, tick: u64) -> (r: bool)
        ensures
            r == self@.can_set_waiting(tick),
    {
        !matches!(self.state, TaskState::Idle { .. }) || (self.readies < usize::MAX
            && self.time.accrue_fits(self.state, tick))
    }

    /// Whether the task can start running at `tick`.
    pub fn can_set_active_at(&self, tick: u64) -> (r: bool)
        ensures
            r == self@.can_set_active(tick),
    {
        !matches!(self.state, TaskState::Waiting { .. }) || self.time.accrue_fits(self.state, tick)
    }

    /// Whether a deadline of `dur` ticks can be started at `now`.
    pub fn can_start_deadline_at(&self, now: u64, dur: u64) -> (r: bool)
        ensures
            r == self@.can_start_deadline(now, dur),
    {
        matches!(self.dead.deadstate, DeadlineState::Inactive) && dur <= u64::MAX - now
    }

    /// Whether the running deadline, if any, can be finished at `now`.
    pub fn can_stop_deadline_at(&self, now: u64) -> (r: bool)
        ensures
            r == self@.can_stop_deadline(now),
    {
        match self.dead.deadstate {
            DeadlineState::Inactive => true,
            DeadlineState::Active { deadline_at, .. } => {
                self.dead.deadlines_retired < usize::MAX && if now > deadline_at {
                    self.dead.deadlines_violated < usize::MAX && self.dead.deadline_deviant_ticks
                        <= u64::MAX - (now - deadline_at)
                } else {
                    self.dead.deadlines_met < usize::MAX
                }
            },
        }
    }

    /// Whether a report can be taken at `now`.
    pub fn can_report_at(&self, now: u64) -> (r: bool)
        ensures
            r == self@.can_report(now),
    {
        self.time.accrue_fits(self.state, now)
    }

    /// The task's run ended at `tick`. Returns whether the task was
    /// waiting rather than running, a move the trace should not show.
    pub fn set_idle(&mut self, tick: u64) -> (unexpected: bool)
        requires
            old(self)@.can_set_idle(tick),
        ensures
            final(self)@ == old(self)@.set_idle(tick),
            unexpected == (old(self).state is Waiting),
    {
        let unexpected = matches!(self.state, TaskState::Waiting { .. });
        let was_pended = match self.state {
            TaskState::Idle { .. } => false,
            TaskState::Waiting { .. } => false,
            TaskState::Active { pended, .. } => {
                accrue_task(&mut self.time, self.state, tick);
                pended
            },
        };
        if was_pended {
            self.state = TaskState::Waiting { since: tick };
        } else {
            self.state = TaskState::Idle { since: tick };
        }
        unexpected
    }

    /// The task was made ready at `tick`.
    pub fn set_waiting(&mut self, tick: u64)
        requires
            old(self)@.can_set_waiting(tick),
        ensures
            final(self)@ == old(self)@.set_waiting(tick),
    {
        match self.state {
            TaskState::Idle { .. } => {
                self.readies = self.readies + 1;
                accrue_task(&mut self.time, self.state, tick);
                self.state = TaskState::Waiting { since: tick };
            },
            TaskState::Waiting { .. } => {},
            TaskState::Active { since, .. } => {
                self.state = TaskState::Active { since, pended: true };
            },
        }
    }

    /// The task started running at `tick`. Returns whether the task was
    /// idle rather than waiting, a move the trace should not show.
    pub fn set_active(&mut self, tick: u64) -> (unexpected: bool)
        requires
            old(self)@.can_set_active(tick),
        ensures
            final(self)@ == old(self)@.set_active(tick),
            unexpected == (old(self).state is Idle),
    {
        let unexpected = match self.state {
            TaskState::Idle { .. } => true,
            TaskState::Waiting { .. } => {
                accrue_task(&mut self.time, self.state, tick);
                false
            },
            TaskState::Active { .. } => false,
        };
        self.state = TaskState::Active { since: tick, pended: false };
        unexpected
    }

    /// Starts timing a deadline of `dur` ticks at `now`.
    pub fn start_deadline(&mut self, now: u64, dur: u64)
        requires
            old(self)@.can_start_deadline(now, dur),
        ensures
            final(self)@ == old(self)@.start_deadline(now, dur),
    {
        match self.dead.deadstate {
            DeadlineState::Inactive => {
                self.dead.deadstate = DeadlineState::Active { at: now, deadline_at: now + dur };
            },
            DeadlineState::Active { .. } => {},
        }
    }

    /// Finishes the running deadline, if any, at `now`.
    pub fn stop_deadline(&mut self, now: u64)
        requires
            old(self)@.can_stop_deadline(now),
        ensures
            final(self)@ == old(self)@.stop_deadline(now),
    {
        match self.dead.deadstate {
            DeadlineState::Inactive => {},
            DeadlineState::Active { at: _, deadline_at } => {
                self.dead.deadlines_retired = self.dead.deadlines_retired + 1;
                if now > deadline_at {
                    self.dead.deadlines_violated = self.dead.deadlines_violated + 1;
                    self.dead.deadline_deviant_ticks = self.dead.deadline_deviant_ticks + (now - deadline_at);
                } else {
                    self.dead.deadlines_met = self.dead.deadlines_met + 1;
                }
                self.dead.deadstate = DeadlineState::Inactive;
            },
        }
    }

    /// Takes the wake-ups, the time accounted up to `now` and the deadline
    /// statistics, and starts a new interval.
    pub fn take_report(&mut self, now: u64) -> (r: (usize, TaskTime, DeadReport))
        requires
            old(self)@.can_report(now),
        ensures
            r == old(self)@.report(now),
            final(self)@ == old(self)@.after_report(now),
    {
        let state = self.state;
        accrue_task(&mut self.time, state, now);
        self.state = match state {
            TaskState::Idle { .. } => TaskState::Idle { since: now },
            TaskState::Waiting { .. } => TaskState::Waiting { since: now },
            TaskState::Active { pended, .. } => TaskState::Active { since: now, pended },
        };
        let time = self.time;
        self.time = TaskTime::default();
        let readies = self.readies;
        self.readies = 0;
        let dead = DeadReport {
            deadlines_retired: self.dead.deadlines_retired,
            deadlines_met: self.dead.deadlines_met,
            deadlines_violated: self.dead.deadlines_violated,
            deadline_deviant_ticks: self.dead.deadline_deviant_ticks,
        };
        self.dead.deadlines_retired = 0;
        self.dead.deadlines_met = 0;
        self.dead.deadlines_violated = 0;
        self.dead.deadline_deviant_ticks = 0;
        (readies, time, dead)
    }
}

} // verus!
