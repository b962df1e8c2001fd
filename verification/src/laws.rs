//! Properties that hold across the operations of the library.

use vstd::prelude::*;
use crate::icd::{Event, Step, StageCommand};
use crate::icd::LedState;
use crate::task::{TaskView, TaskTime, DeadReport, TaskState, DeadlineState};
use crate::exec::{ExecData, ExecTime, ExecState};
use crate::system::{SystemModel, IntervalReport, TaskReport};
use crate::keys::strictly_increasing;
use crate::hex::worker_name;
use crate::burst::{BurstTaskView, is_worker_name};
use crate::scenario::{SCENARIO_DEADLINE_TICKS, START_DELAY_STEP};
use crate::hex::{hex_seq, hex_char, task_name, lemma_hex_seq_len};
use crate::burst::{BurstConfig, ContextModel, is_load_command, is_crit_command, is_timing_command, CRIT_IDENT, TIMING_IDENT};
use crate::scenario::is_scenario_command;
use crate::device::{runnable, led_pin_high, led_from_pin, pass_actions, steps_actions, step_actions, WorkerAction};

verus! {

// ---------------------------------------------------------------------------
// Task time.

/// Making a task ready never loses time: the time accounted minus the start
/// of the current state is unchanged.
pub proof fn lemma_set_waiting_conserves_time(t: TaskView, tick: u64)
    requires
        t.can_set_waiting(tick),
    ensures
        t.set_waiting(tick).time.total() - t.set_waiting(tick).state.since()
            == t.time.total() - t.state.since(),
{
}

/// Ending a run that is under way never loses time.
pub proof fn lemma_set_idle_conserves_time(t: TaskView, tick: u64)
    requires
        t.can_set_idle(tick),
        t.state is Active,
    ensures
        t.set_idle(tick).time.total() - t.set_idle(tick).state.since()
            == t.time.total() - t.state.since(),
{
}

/// Starting to run after waiting never loses time.
pub proof fn lemma_set_active_conserves_time(t: TaskView, tick: u64)
    requires
        t.can_set_active(tick),
        t.state is Waiting,
    ensures
        t.set_active(tick).time.total() - t.set_active(tick).state.since()
            == t.time.total() - t.state.since(),
{
}

/// A task report holds all time up to the moment it is taken, and the task
/// then starts afresh from that moment.
pub proof fn lemma_task_report_complete(t: TaskView, now: u64)
    requires
        t.can_report(now),
    ensures
        t.report(now).1.total() == t.time.total() + (now - t.state.since()),
        t.after_report(now).time.total() == 0,
        t.after_report(now).state.since() == now,
{
}

// ---------------------------------------------------------------------------
// Deadlines.

/// A deadline started at `start` for `dur` ticks and stopped at `stop` is
/// counted as met exactly when `stop` is not past `start + dur`; otherwise
/// it is violated and adds the overrun to the deviant ticks.
pub proof fn lemma_deadline_verdict(t: TaskView, start: u64, dur: u64, stop: u64)
    requires
        t.can_start_deadline(start, dur),
        t.start_deadline(start, dur).can_stop_deadline(stop),
    ensures
        ({
            let after = t.start_deadline(start, dur).stop_deadline(stop);
            &&& after.dead.deadstate is Inactive
            &&& after.dead.deadlines_retired == t.dead.deadlines_retired + 1
            &&& stop <= start + dur ==> {
                &&& after.dead.deadlines_met == t.dead.deadlines_met + 1
                &&& after.dead.deadlines_violated == t.dead.deadlines_violated
                &&& after.dead.deadline_deviant_ticks == t.dead.deadline_deviant_ticks
            }
            &&& stop > start + dur ==> {
                &&& after.dead.deadlines_met == t.dead.deadlines_met
                &&& after.dead.deadlines_violated == t.dead.deadlines_violated + 1
                &&& after.dead.deadline_deviant_ticks == t.dead.deadline_deviant_ticks + (stop - (start + dur))
            }
        }),
{
}

/// Every task keeps its finished deadlines split into met and violated
/// ones, through every event.
pub open spec fn deadline_counts_consistent(m: SystemModel) -> bool {
    forall|k: u32| #[trigger] m.tasks.contains_key(k) ==> m.tasks[k].dead.counts_consistent()
}

/// Handling an event keeps every task's deadline counts consistent.
pub proof fn lemma_handle_keeps_deadline_counts(m: SystemModel, evt: Event, bytes: usize)
    requires
        m.can_handle(evt, bytes),
        deadline_counts_consistent(m),
    ensures
        deadline_counts_consistent(m.handle(evt, bytes)),
{
    let m2 = m.handle(evt, bytes);
    assert forall|k: u32| #[trigger] m2.tasks.contains_key(k) implies m2.tasks[k].dead.counts_consistent() by {
        if m.tasks.contains_key(k) {
            assert(m.tasks[k].dead.counts_consistent());
        }
    }
}

/// Every finished deadline is met or violated, and each violation counted
/// at least one deviant tick.
pub open spec fn deadline_stats_sound(t: TaskView) -> bool {
    &&& t.dead.counts_consistent()
    &&& t.dead.deadline_deviant_ticks >= t.dead.deadlines_violated
}

/// A new task's deadline statistics are sound.
pub proof fn lemma_fresh_deadline_stats(task_id: u32, state: crate::task::TaskState)
    ensures
        deadline_stats_sound(TaskView::fresh(task_id, state)),
{
}

/// Starting and stopping deadlines, and reports, keep the deadline
/// statistics sound.
pub proof fn lemma_deadline_stats_kept(t: TaskView, now: u64, dur: u64)
    requires
        deadline_stats_sound(t),
    ensures
        t.can_stop_deadline(now) ==> deadline_stats_sound(t.stop_deadline(now)),
        t.can_start_deadline(now, dur) ==> deadline_stats_sound(t.start_deadline(now, dur)),
        deadline_stats_sound(t.after_report(now)),
{
}

/// A report leaves every task with consistent (zero) deadline counts.
pub proof fn lemma_capture_resets_deadline_counts(m: SystemModel)
    ensures
        deadline_counts_consistent(m.after_capture()),
{
}

// ---------------------------------------------------------------------------
// The system.

/// Before the first `ExecutorPollStart` every other event is dropped.
pub proof fn lemma_ignored_before_first_poll(m: SystemModel, evt: Event, bytes: usize)
    requires
        m.last_delta is None,
        !(evt is ExecutorPollStart),
    ensures
        m.handle(evt, bytes) == m,
{
}

/// Once the trace is under way, every event counts its bytes exactly.
pub proof fn lemma_bytes_counted(m: SystemModel, evt: Event, bytes: usize)
    requires
        m.last_delta is Some,
        m.bytes + bytes <= usize::MAX,
    ensures
        m.handle(evt, bytes).bytes == m.bytes + bytes,
{
}

/// A task, once seen, is never forgotten: events and reports keep it.
pub proof fn lemma_tasks_kept(m: SystemModel, evt: Event, bytes: usize, k: u32)
    requires
        m.tasks.contains_key(k),
    ensures
        m.handle(evt, bytes).tasks.contains_key(k),
        m.after_capture().tasks.contains_key(k),
{
}

/// Once the trace is under way, handling an event never loses executor
/// time: the time accounted minus the start of the executor's state is
/// unchanged.
pub proof fn lemma_handle_conserves_executor_time(m: SystemModel, evt: Event, bytes: usize)
    requires
        m.can_handle(evt, bytes),
        m.last_delta is Some,
    ensures
        m.handle(evt, bytes).executor.time.total() - m.handle(evt, bytes).executor.state.since()
            == m.executor.time.total() - m.executor.state.since(),
{
}

/// The state after handling a run of events, each with its byte count.
pub open spec fn handle_all(m: SystemModel, evts: Seq<(Event, usize)>) -> SystemModel
    decreases evts.len(),
{
    if evts.len() == 0 {
        m
    } else {
        handle_all(m, evts.drop_last()).handle(evts.last().0, evts.last().1)
    }
}

/// Whether every event of the run can be handled in turn.
pub open spec fn can_handle_all(m: SystemModel, evts: Seq<(Event, usize)>) -> bool
    decreases evts.len(),
{
    if evts.len() == 0 {
        true
    } else {
        can_handle_all(m, evts.drop_last()) && handle_all(m, evts.drop_last()).can_handle(
            evts.last().0,
            evts.last().1,
        )
    }
}

proof fn lemma_handle_all_conserves(m: SystemModel, evts: Seq<(Event, usize)>)
    requires
        m.last_delta is Some,
        can_handle_all(m, evts),
    ensures
        handle_all(m, evts).last_delta is Some,
        handle_all(m, evts).executor.time.total() - handle_all(m, evts).executor.state.since()
            == m.executor.time.total() - m.executor.state.since(),
    decreases evts.len(),
{
    if evts.len() > 0 {
        lemma_handle_all_conserves(m, evts.drop_last());
        lemma_handle_conserves_executor_time(handle_all(m, evts.drop_last()), evts.last().0, evts.last().1);
    }
}

/// Between two reports, the executor's report accounts exactly the ticks
/// from the first report to the second: no executor time is lost or
/// counted twice.
pub proof fn lemma_report_covers_interval(m: SystemModel, evts: Seq<(Event, usize)>)
    requires
        m.last_delta is Some,
        can_handle_all(m.after_capture(), evts),
        handle_all(m.after_capture(), evts).can_capture(),
    ensures
        ({
            let m2 = handle_all(m.after_capture(), evts);
            m2.executor.time.accrue(m2.executor.state, m2.current_tick).total() == m2.current_tick - m.current_tick
        }),
{
    lemma_handle_all_conserves(m.after_capture(), evts);
}

/// The task an event names, if any.
pub open spec fn event_task(evt: Event) -> Option<u32> {
    match evt {
        Event::TaskNew { task_id, .. } => Some(task_id),
        Event::TaskExecBegin { task_id, .. } => Some(task_id),
        Event::TaskExecEnd { task_id, .. } => Some(task_id),
        Event::TaskReadyBegin { task_id, .. } => Some(task_id),
        Event::TaskIdentify { task_id, .. } => Some(task_id),
        Event::DeadlineStart { task_id, .. } => Some(task_id),
        Event::DeadlineStop { task_id, .. } => Some(task_id),
        _ => None,
    }
}

/// Whether an event makes its task known when it is not yet.
pub open spec fn creates_task(evt: Event) -> bool {
    evt is TaskExecBegin || evt is TaskExecEnd || evt is TaskReadyBegin
}

/// Only the three events that move a task make it known, and an event
/// changes no task but the one it names.
pub proof fn lemma_event_touches_only_its_task(m: SystemModel, evt: Event, bytes: usize)
    ensures
        ({
            let m2 = m.handle(evt, bytes);
            &&& forall|k: u32| #[trigger] m2.tasks.contains_key(k) <==> (m.tasks.contains_key(k) || (
                !m.ignores(evt) && creates_task(evt) && event_task(evt) == Some(k)))
            &&& forall|k: u32| #[trigger] m.tasks.contains_key(k) && event_task(evt) != Some(k)
                ==> m2.tasks[k] == m.tasks[k]
        }),
{
}

// ---------------------------------------------------------------------------
// Reports taken twice.

/// A second executor report at the same tick holds no time and changes
/// nothing.
pub proof fn lemma_exec_report_twice(e: ExecData, now: u64)
    requires
        e.can_report(now),
    ensures
        ({
            let e1 = ExecData { state: e.state.restarted(now), time: ExecTime::zero() };
            &&& e1.can_report(now)
            &&& e1.time.accrue(e1.state, now) == ExecTime::zero()
            &&& e1.state.restarted(now) == e1.state
        }),
{
}

/// A second task report at the same tick holds no wake-up, no time and no
/// finished deadline, and changes nothing.
pub proof fn lemma_task_report_twice(t: TaskView, now: u64)
    requires
        t.can_report(now),
    ensures
        ({
            let t1 = t.after_report(now);
            &&& t1.can_report(now)
            &&& t1.report(now).0 == 0
            &&& t1.report(now).1.total() == 0
            &&& t1.report(now).2.deadlines_retired == 0
            &&& t1.after_report(now) == t1
        }),
{
}

/// A second system report right after a first holds no byte, no executor
/// time and, for the same tasks, no wake-up, time or finished deadline.
pub proof fn lemma_capture_twice(m: SystemModel)
    requires
        m.can_capture(),
    ensures
        ({
            let m1 = m.after_capture();
            &&& m1.can_capture()
            &&& m1.bytes == 0
            &&& m1.executor.time.accrue(m1.executor.state, m1.current_tick) == ExecTime::zero()
            &&& m1.tasks.dom() == m.tasks.dom()
            &&& forall|k: u32| #[trigger] m1.tasks.contains_key(k) ==> {
                let r = m1.tasks[k].report(m1.current_tick);
                &&& r.0 == 0
                &&& r.1 == TaskTime::zero()
                &&& r.2 == (DeadReport { deadlines_retired: 0, deadlines_met: 0, deadlines_violated: 0, deadline_deviant_ticks: 0 })
            }
        }),
{
    let m1 = m.after_capture();
    assert(m1.tasks.dom() =~= m.tasks.dom());
}

// ---------------------------------------------------------------------------
// Names.

/// Powers of sixteen.
pub open spec fn pow16(n: nat) -> nat
    decreases n,
{
    if n == 0 { 1 } else { 16 * pow16((n - 1) as nat) }
}

proof fn lemma_hex_char_injective(a: int, b: int)
    requires
        0 <= a < 16,
        0 <= b < 16,
        hex_char(a) == hex_char(b),
    ensures
        a == b,
{
}

proof fn lemma_hex_seq_injective(a: nat, b: nat, n: nat)
    requires
        a < pow16(n),
        b < pow16(n),
        hex_seq(a, n) == hex_seq(b, n),
    ensures
        a == b,
    decreases n,
{
    if n > 0 {
        let p = pow16((n - 1) as nat);
        let sa = hex_seq(a, n);
        let sb = hex_seq(b, n);
        assert(sa.last() == hex_char((a % 16) as int));
        assert(sb.last() == hex_char((b % 16) as int));
        lemma_hex_char_injective((a % 16) as int, (b % 16) as int);
        assert(sa.drop_last() =~= hex_seq(a / 16, (n - 1) as nat));
        assert(sb.drop_last() =~= hex_seq(b / 16, (n - 1) as nat));
        assert(a / 16 < p) by (nonlinear_arith)
            requires
                a < 16 * p,
        ;
        assert(b / 16 < p) by (nonlinear_arith)
            requires
                b < 16 * p,
        ;
        lemma_hex_seq_injective(a / 16, b / 16, (n - 1) as nat);
        assert(a == 16 * (a / 16) + a % 16) by (nonlinear_arith);
        assert(b == 16 * (b / 16) + b % 16) by (nonlinear_arith);
    }
}

/// Distinct tasks get distinct display names.
pub proof fn lemma_task_names_distinct(a: u32, b: u32)
    requires
        a != b,
    ensures
        task_name(a) != task_name(b),
{
    assert(pow16(8) == 0x1_0000_0000) by {
        reveal_with_fuel(pow16, 9);
    }
    lemma_hex_seq_len(a as nat, 8);
    lemma_hex_seq_len(b as nat, 8);
    if task_name(a) == task_name(b) {
        assert(task_name(a).subrange(2, 10) =~= hex_seq(a as nat, 8));
        assert(task_name(b).subrange(2, 10) =~= hex_seq(b as nat, 8));
        lemma_hex_seq_injective(a as nat, b as nat, 8);
    }
}

// ---------------------------------------------------------------------------
// Workers accept what the host stages.

/// Every task built for a burst run can be run by a worker.
pub proof fn lemma_burst_tasks_runnable(cfg: BurstConfig, c: StageCommand, i: int)
    requires
        is_load_command(c, cfg, i) || is_crit_command(c, cfg) || is_timing_command(c, cfg),
    ensures
        runnable(c),
{
    if is_load_command(c, cfg, i) {
        assert(forall|j: int| 0 <= j < c.steps_seq().len() ==> #[trigger] c.steps_seq()[j] == (if j % 2 == 0 {
            Step::WaitTrigger
        } else {
            Step::WorkTicks { ticks: cfg.load_deadline_work }
        }));
    } else if is_timing_command(c, cfg) {
        assert(forall|j: int| 0 <= j < c.steps_seq().len() ==> #[trigger] c.steps_seq()[j] == (if j % 2 == 0 {
            Step::SleepTicks { ticks: cfg.timing_pulse_interval as u32 }
        } else {
            Step::WakeTrigger
        }));
    }
}

/// Every scenario task can be run by a worker.
pub proof fn lemma_scenario_tasks_runnable(c: StageCommand, i: u32)
    requires
        is_scenario_command(c, i),
    ensures
        runnable(c),
{
    assert(c.steps_seq().len() == 16);
}

// ---------------------------------------------------------------------------
// The device.

/// The LED reads back as it was set.
pub proof fn lemma_led_roundtrip(s: LedState)
    ensures
        led_from_pin(led_pin_high(s)) == s,
{
}

// ---------------------------------------------------------------------------
// Relative ticks are resolved against the last poll start.

/// Once the trace is under way with reference tick `ld`, an event with a
/// relative tick moves the current tick to `tick + ld`, and a poll start
/// makes its own tick both the current and the reference tick.
pub proof fn lemma_ticks_resolved(m: SystemModel, evt: Event, bytes: usize, ld: u64)
    requires
        m.last_delta == Some(ld),
        m.can_handle(evt, bytes),
    ensures
        ({
            let m2 = m.handle(evt, bytes);
            match evt {
                Event::TaskNew { .. } => m2.current_tick == m.current_tick && m2.last_delta == Some(ld),
                Event::ExecutorPollStart { tick } => m2.current_tick == tick && m2.last_delta == Some(tick),
                Event::TaskExecBegin { tick, .. } => m2.current_tick == tick + ld && m2.last_delta == Some(ld),
                Event::TaskExecEnd { tick, .. } => m2.current_tick == tick + ld && m2.last_delta == Some(ld),
                Event::TaskReadyBegin { tick, .. } => m2.current_tick == tick + ld && m2.last_delta == Some(ld),
                Event::ExecutorIdle { tick } => m2.current_tick == tick + ld && m2.last_delta == Some(ld),
                Event::TaskIdentify { tick, .. } => m2.current_tick == tick + ld && m2.last_delta == Some(ld),
                Event::DeadlineStart { tick, .. } => m2.current_tick == tick + ld && m2.last_delta == Some(ld),
                Event::DeadlineStop { tick, .. } => m2.current_tick == tick + ld && m2.last_delta == Some(ld),
            }
        }),
{
}

/// A deadline started by an event for a known task runs from the absolute
/// tick of the event and ends `deadline` ticks later.
pub proof fn lemma_deadline_start_absolute(
    m: SystemModel,
    tick: u64,
    task_id: u32,
    deadline: u64,
    bytes: usize,
    ld: u64,
)
    requires
        m.last_delta == Some(ld),
        m.tasks.contains_key(task_id),
        m.can_handle(Event::DeadlineStart { tick, task_id, deadline }, bytes),
    ensures
        m.handle(Event::DeadlineStart { tick, task_id, deadline }, bytes).tasks[task_id].dead.deadstate
            == (DeadlineState::Active { at: (tick + ld) as u64, deadline_at: (tick + ld + deadline) as u64 }),
{
}

/// A deadline stopped by an event for a known task is judged at the
/// absolute tick of the event: met when that tick is not past the
/// deadline's end, otherwise violated by the difference.
pub proof fn lemma_deadline_stop_absolute(
    m: SystemModel,
    tick: u64,
    task_id: u32,
    bytes: usize,
    ld: u64,
    at: u64,
    end: u64,
)
    requires
        m.last_delta == Some(ld),
        m.tasks.contains_key(task_id),
        m.tasks[task_id].dead.deadstate == (DeadlineState::Active { at, deadline_at: end }),
        m.can_handle(Event::DeadlineStop { tick, task_id }, bytes),
    ensures
        ({
            let d0 = m.tasks[task_id].dead;
            let d = m.handle(Event::DeadlineStop { tick, task_id }, bytes).tasks[task_id].dead;
            &&& d.deadstate == DeadlineState::Inactive
            &&& d.deadlines_retired == d0.deadlines_retired + 1
            &&& tick + ld <= end ==> d.deadlines_met == d0.deadlines_met + 1
                && d.deadlines_violated == d0.deadlines_violated
                && d.deadline_deviant_ticks == d0.deadline_deviant_ticks
            &&& tick + ld > end ==> d.deadlines_met == d0.deadlines_met
                && d.deadlines_violated == d0.deadlines_violated + 1
                && d.deadline_deviant_ticks == d0.deadline_deviant_ticks + (tick + ld - end)
        }),
{
}

/// A task first moved by an event is created in the matching state at the
/// event's absolute tick: running after an exec begin, idle after an exec
/// end, waiting (with one wake-up) after a ready event.
pub proof fn lemma_new_task_state(m: SystemModel, evt: Event, bytes: usize, ld: u64, id: u32)
    requires
        m.last_delta == Some(ld),
        !m.tasks.contains_key(id),
        m.can_handle(evt, bytes),
    ensures
        evt == (Event::TaskExecBegin { tick: evt->TaskExecBegin_tick, task_id: id }) ==> {
            let t = m.handle(evt, bytes).tasks[id];
            &&& t.state == (TaskState::Active { since: (evt->TaskExecBegin_tick + ld) as u64, pended: false })
            &&& t.readies == 0 && t.time == TaskTime::zero()
        },
        evt == (Event::TaskExecEnd { tick: evt->TaskExecEnd_tick, task_id: id }) ==> {
            let t = m.handle(evt, bytes).tasks[id];
            &&& t.state == (TaskState::Idle { since: (evt->TaskExecEnd_tick + ld) as u64 })
            &&& t.readies == 0 && t.time == TaskTime::zero()
        },
        evt == (Event::TaskReadyBegin { tick: evt->TaskReadyBegin_tick, task_id: id }) ==> {
            let t = m.handle(evt, bytes).tasks[id];
            &&& t.state == (TaskState::Waiting { since: (evt->TaskReadyBegin_tick + ld) as u64 })
            &&& t.readies == 0 && t.time == TaskTime::zero()
        },
{
}

// ---------------------------------------------------------------------------
// Reports give each counter under its own name.

/// A task report gives the wake-ups, each deadline counter under its own
/// name, and the time of each state, with the open interval of the current
/// state added to that state only.
pub proof fn lemma_task_report_fields(t: TaskView, now: u64)
    requires
        t.can_report(now),
    ensures
        ({
            let (readies, time, dead) = t.report(now);
            let open = now - t.state.since();
            &&& readies == t.readies
            &&& dead.deadlines_retired == t.dead.deadlines_retired
            &&& dead.deadlines_met == t.dead.deadlines_met
            &&& dead.deadlines_violated == t.dead.deadlines_violated
            &&& dead.deadline_deviant_ticks == t.dead.deadline_deviant_ticks
            &&& time.ticks_idle == t.time.ticks_idle + (if t.state is Idle { open } else { 0 })
            &&& time.ticks_waiting == t.time.ticks_waiting + (if t.state is Waiting { open } else { 0 })
            &&& time.ticks_active == t.time.ticks_active + (if t.state is Active { open } else { 0 })
        }),
{
}

/// An executor report gives the time of each state, with the open interval
/// of the current state added to that state only.
pub proof fn lemma_exec_report_fields(e: ExecData, now: u64)
    requires
        e.can_report(now),
    ensures
        ({
            let r = e.time.accrue(e.state, now);
            let open = now - e.state.since();
            &&& r.ticks_idle == e.time.ticks_idle + (if e.state is Idle { open } else { 0 })
            &&& r.ticks_sched == e.time.ticks_sched + (if e.state is Scheduling { open } else { 0 })
            &&& r.ticks_poll == e.time.ticks_poll + (if e.state is Polling { open } else { 0 })
        }),
{
}

/// Moving the executor to a different state adds the time spent in the
/// old state to that state's counter only, and the new state starts at the
/// tick of the move.
pub proof fn lemma_exec_move_fields(e: ExecData, next: ExecState, tick: u64)
    requires
        e.can_enter(next, tick),
        next.since() == tick,
        e.state.restarted(tick) != next,
    ensures
        ({
            let e2 = e.enter(next, tick);
            let open = tick - e.state.since();
            &&& e2.state == next
            &&& e2.time.ticks_idle == e.time.ticks_idle + (if e.state is Idle { open } else { 0 })
            &&& e2.time.ticks_sched == e.time.ticks_sched + (if e.state is Scheduling { open } else { 0 })
            &&& e2.time.ticks_poll == e.time.ticks_poll + (if e.state is Polling { open } else { 0 })
        }),
{
}

// ---------------------------------------------------------------------------
// The burst run.

/// A poll start in a burst run moves the reference tick to its own tick:
/// a deadline stop that follows it is recorded at that tick plus its
/// relative tick.
pub proof fn lemma_burst_poll_start_then_stop(m: ContextModel, p: u64, r: u64, task_id: u32)
    requires
        m.can_handle(Event::ExecutorPollStart { tick: p }),
        m.handle(Event::ExecutorPollStart { tick: p }).can_handle(Event::DeadlineStop { tick: r, task_id }),
    ensures
        m.handle(Event::ExecutorPollStart { tick: p }).cur_tick == Some(p),
        m.handle(Event::ExecutorPollStart { tick: p }).handle(Event::DeadlineStop { tick: r, task_id }).workers[task_id].stop
            == Some((p + r) as u64),
{
}

/// A deadline start in a burst run is recorded at the reference tick plus
/// its relative tick, with its deadline, and no stop yet.
pub proof fn lemma_burst_start_recorded(m: ContextModel, c: u64, r: u64, task_id: u32, deadline: u64)
    requires
        m.cur_tick == Some(c),
        m.can_handle(Event::DeadlineStart { tick: r, task_id, deadline }),
    ensures
        ({
            let w = m.handle(Event::DeadlineStart { tick: r, task_id, deadline }).workers[task_id];
            &&& w.start == Some((c + r) as u64)
            &&& w.deadline == Some(deadline)
            &&& w.stop is None
        }),
{
}

/// Every task of a burst run makes a single pass: none of them loops. A
/// load task waits for the pulse sixteen times, working after each, with
/// a deadline that grows with its index; the critical task times its
/// deadline by hand; the timing task fires the pulse sixteen times.
pub proof fn lemma_burst_task_shapes(cfg: BurstConfig, c: StageCommand, i: int)
    ensures
        is_load_command(c, cfg, i) ==> {
            &&& !c.loops
            &&& !c.manual_start_stop
            &&& c.start_delay_ticks == 0
            &&& c.deadline_ticks == cfg.load_deadline_base + cfg.load_deadline_incr * i
            &&& c.steps_seq().len() == 32
            &&& forall|j: int| 0 <= j < 32 ==> #[trigger] c.steps_seq()[j] == (if j % 2 == 0 {
                Step::WaitTrigger
            } else {
                Step::WorkTicks { ticks: cfg.load_deadline_work }
            })
        },
        is_crit_command(c, cfg) ==> {
            &&& !c.loops
            &&& c.manual_start_stop
            &&& c.ident == 100
            &&& c.start_delay_ticks == cfg.crit_start_delay
            &&& c.steps_seq()[0] == Step::WaitTrigger
            &&& c.steps_seq().last() == Step::ManualDeadlineStop
        },
        is_timing_command(c, cfg) ==> {
            &&& !c.loops
            &&& !c.manual_start_stop
            &&& c.ident == 110
            &&& c.steps_seq().len() == 32
            &&& forall|j: int| 0 <= j < 32 ==> #[trigger] c.steps_seq()[j] == (if j % 2 == 0 {
                Step::SleepTicks { ticks: cfg.timing_pulse_interval as u32 }
            } else {
                Step::WakeTrigger
            })
        },
{
    assert(CRIT_IDENT == 100 && TIMING_IDENT == 110);
    if is_crit_command(c, cfg) {
        let body = seq![Step::WaitTrigger, Step::ManualDeadlineStart] + crate::burst::alternating(
            Step::WorkTicks { ticks: cfg.crit_work_ticks as u32 },
            Step::SleepTicks { ticks: cfg.crit_sleep_ticks as u32 },
            (2 * cfg.crit_iters) as nat,
        );
        assert(body[0] == Step::WaitTrigger);
        assert(body.drop_last()[0] == Step::WaitTrigger);
    }
}

// ---------------------------------------------------------------------------
// A worker does for each step what the step names.

/// The action a step without manual deadline timing stands for: the
/// action of the same name.
pub open spec fn same_name(step: Step, action: WorkerAction) -> bool {
    match step {
        Step::SleepTicks { ticks } => action == (WorkerAction::Sleep { ticks: ticks as u64 }),
        Step::WorkTicks { ticks } => action == (WorkerAction::Work { ticks: ticks as u64 }),
        Step::Yield => action == WorkerAction::Yield,
        Step::WaitTrigger => action == WorkerAction::WaitTrigger,
        Step::WakeTrigger => action == WorkerAction::WakeTrigger,
        Step::ManualDeadlineStart => false,
        Step::ManualDeadlineStop => false,
    }
}

proof fn lemma_steps_one_to_one(steps: Seq<Step>, deadline: u64)
    requires
        forall|i: int| 0 <= i < steps.len() ==> !(#[trigger] steps[i] is ManualDeadlineStart)
            && !(steps[i] is ManualDeadlineStop),
    ensures
        steps_actions(steps, deadline).len() == steps.len(),
        forall|i: int| 0 <= i < steps.len() ==> same_name(#[trigger] steps[i], steps_actions(steps, deadline)[i]),
    decreases steps.len(),
{
    if steps.len() > 0 {
        let init = steps.drop_last();
        assert forall|i: int| 0 <= i < init.len() implies !(#[trigger] init[i] is ManualDeadlineStart)
            && !(init[i] is ManualDeadlineStop) by {
            assert(init[i] == steps[i]);
        }
        lemma_steps_one_to_one(init, deadline);
        let a = steps_actions(init, deadline);
        let last = steps.last();
        assert(!(steps[steps.len() - 1] is ManualDeadlineStart));
        assert(step_actions(last, deadline).len() == 1);
        assert forall|i: int| 0 <= i < steps.len() implies same_name(
            #[trigger] steps[i],
            steps_actions(steps, deadline)[i],
        ) by {
            if i < init.len() {
                assert(steps[i] == init[i]);
                assert(steps_actions(steps, deadline)[i] == a[i]);
            } else {
                assert(steps_actions(steps, deadline)[i] == step_actions(last, deadline)[0]);
            }
        }
    }
}

/// In a pass without manual deadline steps, a worker starts its deadline,
/// then for each step, in order, does exactly the action of the same name
/// (waiting for the pulse on a wait step, working on a work step, ...),
/// and stops its deadline.
pub proof fn lemma_pass_follows_steps(cmd: StageCommand)
    requires
        !cmd.manual_start_stop,
        forall|i: int| 0 <= i < cmd.steps_seq().len() ==> !(#[trigger] cmd.steps_seq()[i] is ManualDeadlineStart)
            && !(cmd.steps_seq()[i] is ManualDeadlineStop),
    ensures
        ({
            let a = pass_actions(cmd);
            let n = cmd.steps_seq().len() as int;
            &&& a.len() == n + 2
            &&& a[0] == (WorkerAction::DeadlineStart { deadline: cmd.deadline_ticks })
            &&& a[n + 1] == WorkerAction::DeadlineStop
            &&& forall|i: int| 0 <= i < n ==> same_name(#[trigger] cmd.steps_seq()[i], a[i + 1])
        }),
{
    lemma_steps_one_to_one(cmd.steps_seq(), cmd.deadline_ticks);
    let a = pass_actions(cmd);
    let body = steps_actions(cmd.steps_seq(), cmd.deadline_ticks);
    assert forall|i: int| 0 <= i < cmd.steps_seq().len() implies same_name(
        #[trigger] cmd.steps_seq()[i],
        a[i + 1],
    ) by {
        assert(a[i + 1] == body[i]);
    }
}

/// Timing a deadline by hand: a manual start step starts the deadline and
/// yields, and a manual stop step stops it; either is appended to what the
/// steps before it do.
pub proof fn lemma_manual_deadline_steps(steps: Seq<Step>, deadline: u64)
    ensures
        steps_actions(steps.push(Step::ManualDeadlineStart), deadline) == steps_actions(steps, deadline)
            + seq![WorkerAction::DeadlineStart { deadline }, WorkerAction::Yield],
        steps_actions(steps.push(Step::ManualDeadlineStop), deadline) == steps_actions(steps, deadline)
            + seq![WorkerAction::DeadlineStop],
{
    assert(steps.push(Step::ManualDeadlineStart).drop_last() =~= steps);
    assert(steps.push(Step::ManualDeadlineStop).drop_last() =~= steps);
}

// ---------------------------------------------------------------------------
// Task moves, field by field.

/// What each task move does to each field: a wake-up of an idle task
/// counts one wake-up and its idle time and makes it wait; a wake-up while
/// running only marks the run; the end of a run counts the run and leaves
/// the task waiting if it was woken meanwhile, idle otherwise; the start of
/// a run counts the wait and runs from the tick, unmarked. No move touches
/// the name or the deadlines.
pub proof fn lemma_task_moves(t: TaskView, tick: u64)
    ensures
        t.can_set_waiting(tick) && t.state is Idle ==> {
            let t2 = t.set_waiting(tick);
            &&& t2.readies == t.readies + 1
            &&& t2.state == (TaskState::Waiting { since: tick })
            &&& t2.time.ticks_idle == t.time.ticks_idle + (tick - t.state.since())
            &&& t2.time.ticks_waiting == t.time.ticks_waiting && t2.time.ticks_active == t.time.ticks_active
        },
        t.state is Waiting ==> t.set_waiting(tick) == t,
        t.state matches TaskState::Active { since, .. } ==> t.set_waiting(tick).state
            == (TaskState::Active { since, pended: true }) && t.set_waiting(tick).time == t.time
            && t.set_waiting(tick).readies == t.readies,
        t.can_set_idle(tick) ==> (t.state matches TaskState::Active { since, pended } ==> {
            let t2 = t.set_idle(tick);
            &&& t2.time.ticks_active == t.time.ticks_active + (tick - since)
            &&& t2.time.ticks_idle == t.time.ticks_idle && t2.time.ticks_waiting == t.time.ticks_waiting
            &&& t2.state == (if pended { TaskState::Waiting { since: tick } } else { TaskState::Idle { since: tick } })
            &&& t2.readies == t.readies
        }),
        t.can_set_active(tick) ==> {
            let t2 = t.set_active(tick);
            &&& t2.state == (TaskState::Active { since: tick, pended: false })
            &&& t2.time.ticks_waiting == t.time.ticks_waiting + (if t.state is Waiting { tick - t.state.since() } else { 0 })
            &&& t2.time.ticks_idle == t.time.ticks_idle && t2.time.ticks_active == t.time.ticks_active
            &&& t2.readies == t.readies
        },
        t.set_waiting(tick).name == t.name && t.set_waiting(tick).dead == t.dead,
        t.set_idle(tick).name == t.name && t.set_idle(tick).dead == t.dead,
        t.set_active(tick).name == t.name && t.set_active(tick).dead == t.dead,
{
}

/// A move to the state the executor is already in changes nothing.
pub proof fn lemma_exec_repeat_changes_nothing(e: ExecData, tick: u64)
    ensures
        e.state is Idle ==> e.enter(ExecData::idle_at(tick), tick) == e,
        e.state is Scheduling ==> e.enter(ExecData::sched_at(tick), tick) == e,
        e.state is Polling ==> e.enter(ExecData::poll_at(tick), tick) == e,
{
}

/// A known task that announces its name takes that name and keeps
/// everything else.
pub proof fn lemma_identify_renames(m: SystemModel, tick: u64, task_id: u32, name: String, bytes: usize)
    requires
        m.last_delta is Some,
        m.tasks.contains_key(task_id),
        m.can_handle(Event::TaskIdentify { tick, task_id, name }, bytes),
    ensures
        ({
            let t = m.handle(Event::TaskIdentify { tick, task_id, name }, bytes).tasks[task_id];
            &&& t.name == name@
            &&& t.readies == m.tasks[task_id].readies
            &&& t.time == m.tasks[task_id].time
            &&& t.state == m.tasks[task_id].state
            &&& t.dead == m.tasks[task_id].dead
        }),
{
}

// ---------------------------------------------------------------------------
// What a report holds.

/// A report holds the bytes counted, the executor's time of each state
/// with the open interval added to the current state, the known tasks once
/// each in increasing order of id, and for each task its name, wake-ups and
/// each deadline counter under its own name.
pub proof fn lemma_report_contents(rpt: IntervalReport, m: SystemModel)
    requires
        rpt.reports(m),
        m.can_capture(),
    ensures
        rpt.bytes == m.bytes,
        rpt.exec_time.ticks_idle == m.executor.time.ticks_idle
            + (if m.executor.state is Idle { m.current_tick - m.executor.state.since() } else { 0 }),
        rpt.exec_time.ticks_sched == m.executor.time.ticks_sched
            + (if m.executor.state is Scheduling { m.current_tick - m.executor.state.since() } else { 0 }),
        rpt.exec_time.ticks_poll == m.executor.time.ticks_poll
            + (if m.executor.state is Polling { m.current_tick - m.executor.state.since() } else { 0 }),
        forall|i: int, j: int| 0 <= i < j < rpt.tasks@.len() ==> rpt.tasks@[i].task_id < rpt.tasks@[j].task_id,
        forall|k: u32| m.tasks.contains_key(k) <==> exists|i: int| 0 <= i < rpt.tasks@.len() && #[trigger] rpt.tasks@[i].task_id == k,
        forall|i: int| #![trigger rpt.tasks@[i]] 0 <= i < rpt.tasks@.len() ==> {
            let t = m.tasks[rpt.tasks@[i].task_id];
            &&& rpt.tasks@[i].name@ == t.name
            &&& rpt.tasks@[i].readies == t.readies
            &&& rpt.tasks@[i].dead.deadlines_retired == t.dead.deadlines_retired
            &&& rpt.tasks@[i].dead.deadlines_met == t.dead.deadlines_met
            &&& rpt.tasks@[i].dead.deadlines_violated == t.dead.deadlines_violated
            &&& rpt.tasks@[i].dead.deadline_deviant_ticks == t.dead.deadline_deviant_ticks
            &&& rpt.tasks@[i].time.total() == t.time.total() + (m.current_tick - t.state.since())
        },
{
    let ids = rpt.tasks@.map_values(|tr: TaskReport| tr.task_id);
    assert forall|i: int, j: int| 0 <= i < j < rpt.tasks@.len() implies rpt.tasks@[i].task_id < rpt.tasks@[j].task_id by {
        assert(ids[i] == rpt.tasks@[i].task_id && ids[j] == rpt.tasks@[j].task_id);
    }
    assert forall|i: int| #![trigger rpt.tasks@[i]] 0 <= i < rpt.tasks@.len() implies
        rpt.tasks@[i].time.total() == m.tasks[rpt.tasks@[i].task_id].time.total()
            + (m.current_tick - m.tasks[rpt.tasks@[i].task_id].state.since()) by {
        let k = rpt.tasks@[i].task_id;
        assert(m.tasks.contains_key(k));
        assert(m.tasks[k].can_report(m.current_tick));
    }
}

// ---------------------------------------------------------------------------
// The burst run's workers.

/// A task that announces a name beginning with `WRK` becomes a worker with
/// that name and nothing recorded yet; any other name, or a worker already
/// known, leaves the workers as they were.
pub proof fn lemma_burst_worker_registered(m: ContextModel, tick: u64, task_id: u32, name: String)
    requires
        !m.ignores(Event::TaskIdentify { tick, task_id, name }),
    ensures
        ({
            let w = m.handle(Event::TaskIdentify { tick, task_id, name }).workers;
            &&& (name@.len() >= 3 && name@[0] == 'W' && name@[1] == 'R' && name@[2] == 'K'
                && !m.workers.contains_key(task_id)) ==> w == m.workers.insert(
                task_id,
                BurstTaskView { name: name@, start: None, deadline: None, stop: None },
            )
            &&& !(name@.len() >= 3 && name@[0] == 'W' && name@[1] == 'R' && name@[2] == 'K'
                && !m.workers.contains_key(task_id)) ==> w == m.workers
        }),
{
}

// ---------------------------------------------------------------------------
// Names read back as the ids they show.

/// The value of an upper-case hexadecimal digit.
pub open spec fn digit_value(c: char) -> int {
    if '0' <= c <= '9' { c as int - '0' as int } else { c as int - 'A' as int + 10 }
}

/// The value of a run of hexadecimal digits, most significant first.
pub open spec fn hex_value(s: Seq<char>) -> int
    decreases s.len(),
{
    if s.len() == 0 { 0 } else { 16 * hex_value(s.drop_last()) + digit_value(s.last()) }
}

proof fn lemma_digit_roundtrip(d: int)
    requires
        0 <= d < 16,
    ensures
        digit_value(hex_char(d)) == d,
{
}

/// `n` hexadecimal digits of a value below `16^n` read back as that value.
pub proof fn lemma_hex_reads_back(v: nat, n: nat)
    requires
        v < pow16(n),
    ensures
        hex_value(hex_seq(v, n)) == v,
    decreases n,
{
    if n > 0 {
        let p = pow16((n - 1) as nat);
        assert(v / 16 < p) by (nonlinear_arith)
            requires
                v < 16 * p,
        ;
        lemma_hex_reads_back(v / 16, (n - 1) as nat);
        lemma_digit_roundtrip((v % 16) as int);
        let sq = hex_seq(v, n);
        assert(sq.drop_last() =~= hex_seq(v / 16, (n - 1) as nat));
        assert(v == 16 * (v / 16) + v % 16) by (nonlinear_arith);
    }
}

/// A task's display name is `T-` followed by eight digits that read back
/// as its id.
pub proof fn lemma_task_name_reads_back(id: u32)
    ensures
        task_name(id).len() == 10,
        task_name(id)[0] == 'T' && task_name(id)[1] == '-',
        hex_value(task_name(id).subrange(2, 10)) == id,
{
    assert(pow16(8) == 0x1_0000_0000) by {
        reveal_with_fuel(pow16, 9);
    }
    lemma_hex_seq_len(id as nat, 8);
    assert(task_name(id).subrange(2, 10) =~= hex_seq(id as nat, 8));
    lemma_hex_reads_back(id as nat, 8);
}

/// A worker's name is `WRK-` followed, for an ident of at most six
/// hexadecimal digits, by six digits that read back as the ident, and by
/// nothing otherwise.
pub proof fn lemma_worker_name_reads_back(ident: u32)
    ensures
        worker_name(ident).subrange(0, 4) == seq!['W', 'R', 'K', '-'],
        ident < 0x100_0000 ==> worker_name(ident).len() == 10 && hex_value(worker_name(ident).subrange(4, 10)) == ident,
        ident >= 0x100_0000 ==> worker_name(ident).len() == 4,
{
    assert(pow16(6) == 0x100_0000) by {
        reveal_with_fuel(pow16, 7);
    }
    lemma_hex_seq_len(ident as nat, 6);
    assert(worker_name(ident).subrange(0, 4) =~= seq!['W', 'R', 'K', '-']);
    if ident < 0x100_0000 {
        assert(worker_name(ident).subrange(4, 10) =~= hex_seq(ident as nat, 6));
        lemma_hex_reads_back(ident as nat, 6);
    }
}

// ---------------------------------------------------------------------------
// The device.

/// The LED is lit exactly when its pin is low.
pub proof fn lemma_led_active_low(s: LedState)
    ensures
        led_pin_high(s) <==> s == LedState::Off,
        led_from_pin(false) == LedState::On,
        led_from_pin(true) == LedState::Off,
{
}

/// A looping worker without steps cannot run, and neither can one with a
/// manual deadline step when deadlines are not timed by hand; a single pass
/// of steps without manual deadline steps can always run.
pub proof fn lemma_runnable_cases(cmd: StageCommand)
    ensures
        cmd.loops && cmd.steps_seq().len() == 0 ==> !runnable(cmd),
        (exists|i: int| 0 <= i < cmd.steps_seq().len() && (#[trigger] cmd.steps_seq()[i] is ManualDeadlineStart
            || cmd.steps_seq()[i] is ManualDeadlineStop)) && !cmd.manual_start_stop ==> !runnable(cmd),
        !cmd.loops && (forall|i: int| 0 <= i < cmd.steps_seq().len() ==> !(#[trigger] cmd.steps_seq()[i] is ManualDeadlineStart)
            && !(cmd.steps_seq()[i] is ManualDeadlineStop)) ==> runnable(cmd),
{
    if (exists|i: int| 0 <= i < cmd.steps_seq().len() && (#[trigger] cmd.steps_seq()[i] is ManualDeadlineStart
        || cmd.steps_seq()[i] is ManualDeadlineStop)) && !cmd.manual_start_stop {
        let i = choose|i: int| 0 <= i < cmd.steps_seq().len() && (#[trigger] cmd.steps_seq()[i] is ManualDeadlineStart
            || cmd.steps_seq()[i] is ManualDeadlineStop);
        assert(cmd.steps_seq()[i] == Step::ManualDeadlineStart || cmd.steps_seq()[i] == Step::ManualDeadlineStop);
    }
}

/// Every scenario task loops over sixteen steps, four work slices and a
/// rest twice, with a deadline of 16600 ticks and a start delay of 150
/// ticks per unit of ident.
pub proof fn lemma_scenario_shape(c: StageCommand, i: u32)
    requires
        is_scenario_command(c, i),
    ensures
        c.loops,
        !c.manual_start_stop,
        c.ident == i,
        c.deadline_ticks == 16600,
        c.start_delay_ticks == 150 * i,
        c.steps_seq().len() == 16,
        forall|j: int| 0 <= j < 16 ==> (#[trigger] c.steps_seq()[j] == Step::Yield) == (j % 8 == 1 || j % 8 == 3 || j % 8 == 5),
        forall|j: int| 0 <= j < 16 ==> (#[trigger] c.steps_seq()[j] == (Step::SleepTicks { ticks: 8192 })) == (j % 8 == 7),
        forall|j: int| 0 <= j < 16 ==> (#[trigger] c.steps_seq()[j] == (Step::WorkTicks { ticks: 16 })) == (j % 8 == 0 || j % 8 == 2 || j % 8 == 4 || j % 8 == 6),
{
    assert(SCENARIO_DEADLINE_TICKS == 16600 && START_DELAY_STEP == 150);
}

} // verus!
