//! Accounting of where the executor spends its time.

use vstd::prelude::*;

verus! {

/// What the executor is doing, and since which tick.
#[derive(Clone, Copy, Debug, PartialEq, Eq, Structural)]
pub enum ExecState {
    Idle { since: u64 },
    Scheduling { since: u64 },
    Polling { since: u64 },
}

/// Ticks the executor spent in each of its states.
#[derive(Clone, Copy, Debug, PartialEq, Eq, Structural)]
pub struct ExecTime {
    pub ticks_idle: u64,
    pub ticks_sched: u64,
    pub ticks_poll: u64,
}

/// The executor's current state with the time accounted so far.
#[derive(Clone, Copy, Debug, PartialEq, Eq, Structural)]
pub struct ExecData {
    pub state: ExecState,
    pub time: ExecTime,
}

impl ExecState {
    /// The tick at which the current state was entered.
    pub open spec fn since(self) -> u64 {
        match self {
            ExecState::Idle { since } => since,
            ExecState::Scheduling { since } => since,
            ExecState::Polling { since } => since,
        }
    }

    /// The same state, entered at `tick`.
    pub open spec fn restarted(self, tick: u64) -> ExecState {
        match self {
            ExecState::Idle { .. } => ExecState::Idle { since: tick },
            ExecState::Scheduling { .. } => ExecState::Scheduling { since: tick },
            ExecState::Polling { .. } => ExecState::Polling { since: tick },
        }
    }
}

impl ExecTime {
    /// All time accounted.
    pub open spec fn total(self) -> int {
        self.ticks_idle + self.ticks_sched + self.ticks_poll
    }

    /// The counter that time spent in `state` is added to.
    pub open spec fn counter(self, state: ExecState) -> u64 {
        match state {
            ExecState::Idle { .. } => self.ticks_idle,
            ExecState::Scheduling { .. } => self.ticks_sched,
            ExecState::Polling { .. } => self.ticks_poll,
        }
    }

    /// Whether the time spent in `state` from its start up to `upto` can be
    /// added to its counter: `upto` is not before the start and the counter
    /// does not overflow.
    pub open spec fn can_accrue(self, state: ExecState, upto: u64) -> bool {
        &&& state.since() <= upto
        &&& self.counter(state) + (upto - state.since()) <= u64::MAX
    }

    /// The time with the ticks spent in `state` up to `upto` added to the
    /// counter of that state.
    pub open spec fn accrue(self, state: ExecState, upto: u64) -> ExecTime {
        let delta = upto - state.since();
        match state {
            ExecState::Idle { .. } => ExecTime { ticks_idle: (self.ticks_idle + delta) as u64, ..self },
            ExecState::Scheduling { .. } => ExecTime { ticks_sched: (self.ticks_sched + delta) as u64, ..self },
            ExecState::Polling { .. } => ExecTime { ticks_poll: (self.ticks_poll + delta) as u64, ..self },
        }
    }

    /// No time accounted.
    pub open spec fn zero() -> ExecTime {
        ExecTime { ticks_idle: 0, ticks_sched: 0, ticks_poll: 0 }
    }
}

impl ExecTime {
    /// Whether the time spent in `state` up to `upto` can be accounted.
    pub fn accrue_fits(&self, state: ExecState, upto: u64) -> (r: bool)
        ensures
            r == self.can_accrue(state, upto),
    {
        let (since, counter) = match state {
            ExecState::Idle { since } => (since, self.ticks_idle),
            ExecState::Scheduling { since } => (since, self.ticks_sched),
            ExecState::Polling { since } => (since, self.ticks_poll),
        };
        since <= upto && counter <= u64::MAX - (upto - since)
    }
}

impl Default for ExecTime {
    fn default() -> (r: ExecTime)
        ensures
            r == ExecTime::zero(),
    {
        ExecTime { ticks_idle: 0, ticks_sched: 0, ticks_poll: 0 }
    }
}

/// Adds the ticks spent in `state` up to `upto` to the counter of that state.
fn accrue_exec(time: &mut ExecTime, state: ExecState, upto: u64)
    requires
        old(time).can_accrue(state, upto),
    ensures
        *final(time) == old(time).accrue(state, upto),
{
    match state {
        ExecState::Idle { since } => {
            time.ticks_idle = time.ticks_idle + (upto - since);
        },
        ExecState::Scheduling { since } => {
            time.ticks_sched = time.ticks_sched + (upto - since);
        },
        ExecState::Polling { since } => {
            time.ticks_poll = time.ticks_poll + (upto - since);
        },
    }
}

impl ExecData {
    /// Whether the executor can move to `next` at `tick` without overflow
    /// or a tick that runs backwards.
    pub open spec fn can_enter(self, next: ExecState, tick: u64) -> bool {
        self.state.restarted(tick) == next || self.time.can_accrue(self.state, tick)
    }

    /// The executor after moving to `next` (a state entered at `tick`): the
    /// time of the state it leaves is accounted, and a move to the state it
    /// is already in changes nothing.
    pub open spec fn enter(self, next: ExecState, tick: u64) -> ExecData {
        if self.state.restarted(tick) == next {
            self
        } else {
            ExecData { state: next, time: self.time.accrue(self.state, tick) }
        }
    }

    pub open spec fn idle_at(tick: u64) -> ExecState {
        ExecState::Idle { since: tick }
    }

    pub open spec fn sched_at(tick: u64) -> ExecState {
        ExecState::Scheduling { since: tick }
    }

    pub open spec fn poll_at(tick: u64) -> ExecState {
        ExecState::Polling { since: tick }
    }

    /// Whether the executor can move to `next` at `tick`.
    pub fn can_enter_at(&self, next: ExecState, tick: u64) -> (r: bool)
        ensures
            r == self.can_enter(next, tick),
    {
        let same = match (self.state, next) {
            (ExecState::Idle { .. }, ExecState::Idle { since }) => since == tick,
            (ExecState::Scheduling { .. }, ExecState::Scheduling { since }) => since == tick,
            (ExecState::Polling { .. }, ExecState::Polling { since }) => since == tick,
            _ => false,
        };
        same || self.time.accrue_fits(self.state, tick)
    }

    /// The executor went idle at `tick`. Returns whether it already was
    /// idle, a move the trace should not show.
    pub fn set_idle(&mut self, tick: u64) -> (repeated: bool)
        requires
            old(self).can_enter(ExecData::idle_at(tick), tick),
        ensures
            *final(self) == old(self).enter(ExecData::idle_at(tick), tick),
            repeated == (old(self).state is Idle),
    {
        match self.state {
            ExecState::Idle { .. } => true,
            ExecState::Scheduling { .. } | ExecState::Polling { .. } => {
                accrue_exec(&mut self.time, self.state, tick);
                self.state = ExecState::Idle { since: tick };
                false
            },
        }
    }

    /// The executor started scheduling at `tick`. Returns whether it
    /// already was scheduling, a move the trace should not show.
    pub fn set_sched(&mut self, tick: u64) -> (repeated: bool)
        requires
            old(self).can_enter(ExecData::sched_at(tick), tick),
        ensures
            *final(self) == old(self).enter(ExecData::sched_at(tick), tick),
            repeated == (old(self).state is Scheduling),
    {
        match self.state {
            ExecState::Scheduling { .. } => true,
            ExecState::Idle { .. } | ExecState::Polling { .. } => {
                accrue_exec(&mut self.time, self.state, tick);
                self.state = ExecState::Scheduling { since: tick };
                false
            },
        }
    }

    /// The executor started polling a task at `tick`. Returns whether it
    /// already was polling, a move the trace should not show.
    pub fn set_polling(&mut self, tick: u64) -> (repeated: bool)
        requires
            old(self).can_enter(ExecData::poll_at(tick), tick),
        ensures
            *final(self) == old(self).enter(ExecData::poll_at(tick), tick),
            repeated == (old(self).state is Polling),
    {
        match self.state {
            ExecState::Polling { .. } => true,
            ExecState::Idle { .. } | ExecState::Scheduling { .. } => {
                accrue_exec(&mut self.time, self.state, tick);
                self.state = ExecState::Polling { since: tick };
                false
            },
        }
    }

    /// Whether a report can be taken at `now`.
    pub open spec fn can_report(self, now: u64) -> bool {
        self.time.can_accrue(self.state, now)
    }

    /// Takes the time accounted up to `now` and starts a new interval: the
    /// executor stays in its state, now counted from `now`, with no time
    /// accounted.
    pub fn take_report(&mut self, now: u64) -> (r: ExecTime)
        requires
            old(self).can_report(now),
        ensures
            r == old(self).time.accrue(old(self).state, now),
            final(self).state == old(self).state.restarted(now),
            final(self).time == ExecTime::zero(),
    {
        let state = self.state;
        accrue_exec(&mut self.time, state, now);
        self.state = match state {
            ExecState::Idle { .. } => ExecState::Idle { since: now },
            ExecState::Scheduling { .. } => ExecState::Scheduling { since: now },
            ExecState::Polling { .. } => ExecState::Polling { since: now },
        };
        let r = self.time;
        self.time = ExecTime::default();
        r
    }
}

/// Executor time is conserved: a move between states only moves time from
/// the open interval of the state it leaves into that state's counter, so
/// the accounted time minus the start of the current state is unchanged.
pub proof fn lemma_exec_time_conserved(e: ExecData, next: ExecState, tick: u64)
    requires
        e.can_enter(next, tick),
        next.since() == tick,
    ensures
        e.enter(next, tick).time.total() - e.enter(next, tick).state.since()
            == e.time.total() - e.state.since(),
{
}

/// A report holds all time up to the moment it is taken: the reported
/// total is the time accounted before plus the open interval of the current
/// state.
pub proof fn lemma_exec_report_complete(e: ExecData, now: u64)
    requires
        e.can_report(now),
    ensures
        e.time.accrue(e.state, now).total() == e.time.total() + (now - e.state.since()),
{
}

} // verus!
