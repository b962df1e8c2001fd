//! The burst experiment: many load tasks, one critical task with a manual
//! deadline and one task that paces them, and the bookkeeping of the
//! critical deadlines seen in the trace.

use vstd::prelude::*;
use crate::icd::{StageCommand, Step};
use crate::step_list::{step_list, steps_new, steps_push, steps_pop};
use crate::icd::Event;
use crate::system::{System, SystemModel, Warning};
use crate::exec::{ExecData, ExecState, ExecTime};
use crate::keys::{sorted_keys, strictly_increasing};
use vstd::string::StrSliceExecFns;
use std::collections::HashMap;

verus! {

/// Parameters of one burst run.
///
/// Load tasks wait for the timing pulse sixteen times and work after each
/// pulse. The timing task sleeps and then fires the pulse, sixteen times.
/// The critical task idles for its start delay, then waits for a pulse,
/// starts its deadline and alternates work and sleep `crit_iters` times,
/// leaving out the last sleep, before it stops its deadline.
#[derive(Debug)]
pub struct BurstConfig {
    pub load_tasks: usize,
    pub load_deadline_base: u64,
    pub load_deadline_incr: u64,
    pub load_deadline_work: u32,
    pub timing_pulse_interval: u64,
    pub crit_start_delay: u64,
    pub crit_work_ticks: u64,
    pub crit_sleep_ticks: u64,
    pub crit_deadline_ticks: u64,
    pub crit_iters: usize,
}

/// Ident of the critical task.
pub const CRIT_IDENT: u32 = 100;

/// Ident of the timing task.
pub const TIMING_IDENT: u32 = 110;

/// `n` steps alternating between `a` and `b`, starting with `a`.
pub open spec fn alternating(a: Step, b: Step, n: nat) -> Seq<Step> {
    Seq::new(n, |i: int| if i % 2 == 0 { a } else { b })
}

/// Steps of a load task: sixteen times, wait for the pulse, then work.
pub open spec fn load_steps(cfg: BurstConfig) -> Seq<Step> {
    alternating(Step::WaitTrigger, Step::WorkTicks { ticks: cfg.load_deadline_work }, 32)
}

/// Steps of the critical task: wait for the pulse, start the deadline,
/// alternate work and sleep without the last step of that run, and stop
/// the deadline. With no iteration, the step dropped is the deadline start.
pub open spec fn crit_steps(cfg: BurstConfig) -> Seq<Step> {
    (seq![Step::WaitTrigger, Step::ManualDeadlineStart] + alternating(
        Step::WorkTicks { ticks: cfg.crit_work_ticks as u32 },
        Step::SleepTicks { ticks: cfg.crit_sleep_ticks as u32 },
        (2 * cfg.crit_iters) as nat,
    )).drop_last().push(Step::ManualDeadlineStop)
}

/// Steps of the timing task: sixteen times, sleep, then fire the pulse.
pub open spec fn timing_steps(cfg: BurstConfig) -> Seq<Step> {
    alternating(Step::SleepTicks { ticks: cfg.timing_pulse_interval as u32 }, Step::WakeTrigger, 32)
}

/// Whether the tasks of `cfg` can be built: the critical steps fit in a
/// step list and no deadline overflows.
pub open spec fn burst_config_ok(cfg: BurstConfig) -> bool {
    &&& cfg.crit_iters <= 15
    &&& cfg.load_tasks > 0 ==> cfg.load_deadline_base + cfg.load_deadline_incr * (cfg.load_tasks - 1) <= u64::MAX
    &&& 17 * cfg.timing_pulse_interval <= u64::MAX
}

/// Whether the tasks of `cfg` can be built (see [`burst_config_ok`]).
pub fn burst_config_check(cfg: &BurstConfig) -> (r: bool)
    ensures
        r == burst_config_ok(*cfg),
{
    if cfg.crit_iters > 15 {
        return false;
    }
    if cfg.timing_pulse_interval > u64::MAX / 17 {
        return false;
    }
    if cfg.load_tasks > 0 {
        let last = (cfg.load_tasks - 1) as u64;
        if last > 0 && cfg.load_deadline_incr > u64::MAX / last {
            assert(cfg.load_deadline_incr * last > u64::MAX) by (nonlinear_arith)
                requires
                    last > 0,
                    cfg.load_deadline_incr > u64::MAX / last,
            ;
            return false;
        }
        assert(cfg.load_deadline_incr * last <= u64::MAX) by (nonlinear_arith)
            requires
                last == 0 || cfg.load_deadline_incr <= u64::MAX / last,
        ;
        let span = cfg.load_deadline_incr * last;
        return cfg.load_deadline_base <= u64::MAX - span;
    }
    true
}

/// The `i`-th load task of `cfg`.
pub open spec fn is_load_command(c: StageCommand, cfg: BurstConfig, i: int) -> bool {
    &&& c.ident == i as u32
    &&& c.steps_seq() == load_steps(cfg)
    &&& !c.loops
    &&& c.deadline_ticks == cfg.load_deadline_base + cfg.load_deadline_incr * i
    &&& c.loop_delay_ticks == 0
    &&& c.start_delay_ticks == 0
    &&& !c.manual_start_stop
}

/// The critical task of `cfg`.
pub open spec fn is_crit_command(c: StageCommand, cfg: BurstConfig) -> bool {
    &&& c.ident == CRIT_IDENT
    &&& c.steps_seq() == crit_steps(cfg)
    &&& !c.loops
    &&& c.deadline_ticks == cfg.crit_deadline_ticks
    &&& c.loop_delay_ticks == 0
    &&& c.start_delay_ticks == cfg.crit_start_delay
    &&& c.manual_start_stop
}

/// The timing task of `cfg`.
pub open spec fn is_timing_command(c: StageCommand, cfg: BurstConfig) -> bool {
    &&& c.ident == TIMING_IDENT
    &&& c.steps_seq() == timing_steps(cfg)
    &&& !c.loops
    &&& c.deadline_ticks == 17 * cfg.timing_pulse_interval
    &&& c.loop_delay_ticks == 0
    &&& c.start_delay_ticks == 0
    &&& !c.manual_start_stop
}

/// Sixteen pairs of steps.
fn sixteen_pairs(a: Step, b: Step) -> (r: heapless::Vec<Step, 32>)
    ensures
        step_list(r) == alternating(a, b, 32),
{
    let mut steps = steps_new();
    let mut j: usize = 0;
    while j < 16
        invariant
            j <= 16,
            step_list(steps) == alternating(a, b, (2 * j) as nat),
        decreases 16 - j,
    {
        steps_push(&mut steps, a).unwrap();
        steps_push(&mut steps, b).unwrap();
        assert(step_list(steps) =~= alternating(a, b, (2 * j + 2) as nat));
        j = j + 1;
    }
    steps
}

/// The steps of the critical task.
fn crit_step_list(cfg: &BurstConfig) -> (r: heapless::Vec<Step, 32>)
    requires
        cfg.crit_iters <= 15,
    ensures
        step_list(r) == crit_steps(*cfg),
{
    let work = Step::WorkTicks { ticks: cfg.crit_work_ticks as u32 };
    let sleep = Step::SleepTicks { ticks: cfg.crit_sleep_ticks as u32 };
    let ghost head = seq![Step::WaitTrigger, Step::ManualDeadlineStart];
    let mut steps = steps_new();
    steps_push(&mut steps, Step::WaitTrigger).unwrap();
    steps_push(&mut steps, Step::ManualDeadlineStart).unwrap();
    assert(step_list(steps) =~= head + alternating(work, sleep, 0));
    let mut j: usize = 0;
    while j < cfg.crit_iters
        invariant
            j <= cfg.crit_iters <= 15,
            head == seq![Step::WaitTrigger, Step::ManualDeadlineStart],
            step_list(steps) == head + alternating(work, sleep, (2 * j) as nat),
        decreases cfg.crit_iters - j,
    {
        steps_push(&mut steps, work).unwrap();
        steps_push(&mut steps, sleep).unwrap();
        assert(step_list(steps) =~= head + alternating(work, sleep, (2 * j + 2) as nat));
        j = j + 1;
    }
    steps_pop(&mut steps).unwrap();
    steps_push(&mut steps, Step::ManualDeadlineStop).unwrap();
    steps
}

/// The tasks of one burst run: the load tasks in order of ident, then the
/// critical task, then the timing task.
pub fn build_burst_tasks(cfg: &BurstConfig) -> (r: Vec<StageCommand>)
    requires
        burst_config_ok(*cfg),
    ensures
        r@.len() == cfg.load_tasks + 2,
        forall|i: int| 0 <= i < cfg.load_tasks ==> is_load_command(#[trigger] r@[i], *cfg, i),
        is_crit_command(r@[cfg.load_tasks as int], *cfg),
        is_timing_command(r@[cfg.load_tasks + 1], *cfg),
{
    let mut tasks: Vec<StageCommand> = Vec::new();
    let mut i: usize = 0;
    while i < cfg.load_tasks
        invariant
            i <= cfg.load_tasks,
            burst_config_ok(*cfg),
            tasks@.len() == i,
            forall|k: int| 0 <= k < i ==> is_load_command(#[trigger] tasks@[k], *cfg, k),
        decreases cfg.load_tasks - i,
    {
        let steps = sixteen_pairs(Step::WaitTrigger, Step::WorkTicks { ticks: cfg.load_deadline_work });
        assert(cfg.load_deadline_incr * i <= cfg.load_deadline_incr * (cfg.load_tasks - 1)) by (nonlinear_arith)
            requires
                i < cfg.load_tasks,
        ;
        tasks.push(StageCommand {
            ident: i as u32,
            steps,
            loops: false,
            deadline_ticks: cfg.load_deadline_base + (cfg.load_deadline_incr * i as u64),
            loop_delay_ticks: 0,
            start_delay_ticks: 0,
            manual_start_stop: false,
        });
        i = i + 1;
    }
    tasks.push(StageCommand {
        ident: CRIT_IDENT,
        steps: crit_step_list(cfg),
        loops: false,
        deadline_ticks: cfg.crit_deadline_ticks,
        loop_delay_ticks: 0,
        start_delay_ticks: cfg.crit_start_delay,
        manual_start_stop: true,
    });
    tasks.push(StageCommand {
        ident: TIMING_IDENT,
        steps: sixteen_pairs(Step::SleepTicks { ticks: cfg.timing_pulse_interval as u32 }, Step::WakeTrigger),
        loops: false,
        deadline_ticks: 17 * cfg.timing_pulse_interval,
        loop_delay_ticks: 0,
        start_delay_ticks: 0,
        manual_start_stop: false,
    });
    tasks
}

broadcast use vstd::std_specs::hash::group_hash_axioms;

/// A worker task seen in the trace, with its manually timed deadline.
#[derive(Debug)]
pub struct BurstTask {
    pub name: String,
    pub start: Option<u64>,
    pub deadline: Option<u64>,
    pub stop: Option<u64>,
}

/// A worker task as a mathematical value.
pub struct BurstTaskView {
    pub name: Seq<char>,
    pub start: Option<u64>,
    pub deadline: Option<u64>,
    pub stop: Option<u64>,
}

impl View for BurstTask {
    type V = BurstTaskView;

    open spec fn view(&self) -> BurstTaskView {
        BurstTaskView { name: self.name@, start: self.start, deadline: self.deadline, stop: self.stop }
    }
}

/// What a burst run learns from the trace.
#[derive(Debug)]
pub struct Context {
    pub cur_tick: Option<u64>,
    pub worker_tasks: HashMap<u32, BurstTask>,
    pub all_events: Vec<Event>,
    pub system: System,
}

/// A burst context as a mathematical value.
pub struct ContextModel {
    pub cur_tick: Option<u64>,
    pub workers: Map<u32, BurstTaskView>,
    pub events: Seq<Event>,
    pub system: SystemModel,
}

/// Whether a task name is that of a worker task.
pub open spec fn is_worker_name(name: Seq<char>) -> bool {
    name.len() >= 3 && name[0] == 'W' && name[1] == 'R' && name[2] == 'K'
}

/// Whether `name` starts with `WRK`.
pub fn starts_with_wrk(name: &String) -> (r: bool)
    ensures
        r == is_worker_name(name@),
{
    let s = name.as_str();
    if s.unicode_len() < 3 {
        return false;
    }
    s.get_char(0) == 'W' && s.get_char(1) == 'R' && s.get_char(2) == 'K'
}

impl ContextModel {
    /// Until the first `ExecutorPollStart` every event is dropped.
    pub open spec fn ignores(self, evt: Event) -> bool {
        self.cur_tick is None && !(evt is ExecutorPollStart)
    }

    /// The reference tick with which `evt` is handled.
    pub open spec fn base(self, evt: Event) -> u64 {
        match self.cur_tick {
            Some(t) => t,
            None => match evt {
                Event::ExecutorPollStart { tick } => tick,
                _ => 0,
            },
        }
    }

    /// Whether `evt` can be handled: the system accepts it, relative ticks
    /// do not overflow, and a deadline is started once and stopped once for
    /// a known worker.
    pub open spec fn can_handle(self, evt: Event) -> bool {
        self.ignores(evt) || {
            let b = self.base(evt);
            &&& self.system.can_handle(evt, 0)
            &&& match evt {
                Event::TaskIdentify { tick, .. } => b + tick <= u64::MAX,
                Event::DeadlineStart { tick, task_id, .. } => {
                    &&& b + tick <= u64::MAX
                    &&& self.workers.contains_key(task_id)
                    &&& self.workers[task_id].start is None
                    &&& self.workers[task_id].deadline is None
                },
                Event::DeadlineStop { tick, task_id } => {
                    &&& b + tick <= u64::MAX
                    &&& self.workers.contains_key(task_id)
                    &&& self.workers[task_id].stop is None
                },
                _ => true,
            }
        }
    }

    /// The context after `evt`: it is recorded and fed to the system; a
    /// poll start moves the reference tick; a worker is registered when it
    /// first announces its name; its deadline start and stop are recorded at
    /// absolute ticks.
    pub open spec fn handle(self, evt: Event) -> ContextModel {
        if self.ignores(evt) {
            self
        } else {
            let b = self.base(evt);
            let s = ContextModel {
                cur_tick: Some(b),
                events: self.events.push(evt),
                system: self.system.handle(evt, 0),
                ..self
            };
            match evt {
                Event::ExecutorPollStart { tick } => ContextModel { cur_tick: Some(tick), ..s },
                Event::TaskIdentify { task_id, name, .. } => if is_worker_name(name@) && !s.workers.contains_key(task_id) {
                    ContextModel {
                        workers: s.workers.insert(task_id, BurstTaskView { name: name@, start: None, deadline: None, stop: None }),
                        ..s
                    }
                } else {
                    s
                },
                Event::DeadlineStart { tick, task_id, deadline } => ContextModel {
                    workers: s.workers.insert(task_id, BurstTaskView {
                        start: Some((b + tick) as u64),
                        deadline: Some(deadline),
                        stop: None,
                        ..s.workers[task_id]
                    }),
                    ..s
                },
                Event::DeadlineStop { tick, task_id } => ContextModel {
                    workers: s.workers.insert(task_id, BurstTaskView {
                        stop: Some((b + tick) as u64),
                        ..s.workers[task_id]
                    }),
                    ..s
                },
                _ => s,
            }
        }
    }

    /// Every known worker has started and stopped its deadline, and there
    /// is at least one.
    pub open spec fn all_done(self) -> bool {
        &&& exists|k: u32| self.workers.contains_key(k)
        &&& forall|k: u32| #[trigger] self.workers.contains_key(k) ==> {
            &&& self.workers[k].start is Some
            &&& self.workers[k].stop is Some
        }
    }
}

/// The measured duration of one worker's deadline and whether it was met.
pub struct BurstOutcome {
    pub task_id: u32,
    pub name: String,
    pub duration: u64,
    pub deadline: u64,
    pub passed: bool,
}

impl Default for Context {
    fn default() -> (r: Context)
        ensures
            r.model().cur_tick is None,
            r.model().workers == Map::<u32, BurstTaskView>::empty(),
            r.model().events == Seq::<Event>::empty(),
            r.model().system == (SystemModel {
                tasks: Map::empty(),
                executor: ExecData { state: ExecState::Idle { since: 0 }, time: ExecTime::zero() },
                current_tick: 0,
                last_delta: None,
                bytes: 0,
            }),
            r.system.last_render is None,
    {
        let r = Context {
            cur_tick: None,
            worker_tasks: HashMap::new(),
            all_events: Vec::new(),
            system: System::default(),
        };
        assert(r.model().workers =~= Map::empty());
        r
    }
}

impl Context {
    /// The context as a mathematical value.
    pub open spec fn model(&self) -> ContextModel {
        ContextModel {
            cur_tick: self.cur_tick,
            workers: Map::new(|k: u32| self.worker_tasks@.contains_key(k), |k: u32| self.worker_tasks@[k]@),
            events: self.all_events@,
            system: self.system.model(),
        }
    }

    /// Whether [`handle_evt`] can take `evt`: tested before the call.
    pub fn can_handle(&self, evt: &Event) -> (r: bool)
        ensures
            r == self.model().can_handle(*evt),
    {
        let b = match self.cur_tick {
            Some(t) => t,
            None => match evt {
                Event::ExecutorPollStart { tick } => *tick,
                _ => {
                    return true;
                },
            },
        };
        if !self.system.can_handle_evt(evt, 0) {
            return false;
        }
        match evt {
            Event::TaskIdentify { tick, .. } => *tick <= u64::MAX - b,
            Event::DeadlineStart { tick, task_id, .. } => {
                *tick <= u64::MAX - b && match self.worker_tasks.get(task_id) {
                    Some(w) => w.start.is_none() && w.deadline.is_none(),
                    None => false,
                }
            },
            Event::DeadlineStop { tick, task_id } => {
                *tick <= u64::MAX - b && match self.worker_tasks.get(task_id) {
                    Some(w) => w.stop.is_none(),
                    None => false,
                }
            },
            _ => true,
        }
    }

    /// Whether all workers are done (see [`ContextModel::all_done`]).
    pub fn all_done(&self) -> (r: bool)
        ensures
            r == self.model().all_done(),
    {
        let keys = sorted_keys(&self.worker_tasks);
        if keys.len() == 0 {
            assert forall|k: u32| !self.model().workers.contains_key(k) by {
                if self.worker_tasks@.contains_key(k) {
                    assert(keys@.contains(k));
                }
            }
            return false;
        }
        assert(keys@.contains(keys@[0]));
        assert(self.model().workers.contains_key(keys@[0]));
        let mut i: usize = 0;
        while i < keys.len()
            invariant
                i <= keys@.len(),
                forall|k: u32| self.worker_tasks@.contains_key(k) <==> keys@.contains(k),
                forall|j: int| 0 <= j < i ==> {
                    &&& self.worker_tasks@[#[trigger] keys@[j]].start is Some
                    &&& self.worker_tasks@[keys@[j]].stop is Some
                },
            decreases keys@.len() - i,
        {
            let k = keys[i];
            assert(keys@.contains(k));
            let t = self.worker_tasks.get(&k).unwrap();
            if t.start.is_none() || t.stop.is_none() {
                assert(self.model().workers.contains_key(k));
                assert(!(self.model().workers[k].start is Some && self.model().workers[k].stop is Some));
                return false;
            }
            i = i + 1;
        }
        assert forall|k: u32| #[trigger] self.model().workers.contains_key(k) implies {
            &&& self.model().workers[k].start is Some
            &&& self.model().workers[k].stop is Some
        } by {
            assert(keys@.contains(k));
            let j = choose|j: int| 0 <= j < keys@.len() && keys@[j] == k;
            assert(self.worker_tasks@[keys@[j]].start is Some);
        }
        true
    }
}

/// Handles one decoded trace event of a burst run, and returns the
/// unexpected moves that the system noted.
pub fn handle_evt(evt: &Event, context: &mut Context) -> (warnings: Vec<Warning>)
    requires
        old(context).model().can_handle(*evt),
    ensures
        final(context).model() == old(context).model().handle(*evt),
        final(context).system.last_render == old(context).system.last_render,
        warnings@ == (if old(context).model().ignores(*evt) {
            Seq::<Warning>::empty()
        } else {
            old(context).model().system.warnings(*evt)
        }),
{
    let ghost m0 = context.model();
    let cur_tick = match context.cur_tick {
        Some(ct) => ct,
        None => {
            if let Event::ExecutorPollStart { tick } = evt {
                context.cur_tick = Some(*tick);
                *tick
            } else {
                return Vec::new();
            }
        },
    };
    context.all_events.push(evt.clone());
    let warnings = context.system.handle_evt(evt.clone(), 0);
    let ghost s = ContextModel {
        cur_tick: Some(cur_tick),
        events: m0.events.push(*evt),
        system: m0.system.handle(*evt, 0),
        ..m0
    };
    assert(context.model().workers =~= s.workers);
    match evt {
        Event::ExecutorPollStart { tick } => {
            context.cur_tick = Some(*tick);
        },
        Event::TaskIdentify { tick, task_id, name } => {
            let _tick = cur_tick + *tick;
            if starts_with_wrk(name) {
                if !context.worker_tasks.contains_key(task_id) {
                    context.worker_tasks.insert(
                        *task_id,
                        BurstTask { name: name.clone(), start: None, deadline: None, stop: None },
                    );
                }
            }
            assert(context.model().workers =~= m0.handle(*evt).workers);
        },
        Event::DeadlineStart { tick, task_id, deadline } => {
            let tick = cur_tick + *tick;
            let mut tsk = context.worker_tasks.remove(task_id).unwrap();
            tsk.start = Some(tick);
            tsk.deadline = Some(*deadline);
            tsk.stop = None;
            context.worker_tasks.insert(*task_id, tsk);
            assert(context.model().workers =~= m0.handle(*evt).workers);
        },
        Event::DeadlineStop { tick, task_id } => {
            let tick = cur_tick + *tick;
            let mut tsk = context.worker_tasks.remove(task_id).unwrap();
            tsk.stop = Some(tick);
            context.worker_tasks.insert(*task_id, tsk);
            assert(context.model().workers =~= m0.handle(*evt).workers);
        },
        _ => {},
    }
    warnings
}

/// Whether every known worker has a complete, forward record.
pub open spec fn outcomes_ready(m: ContextModel) -> bool {
    forall|k: u32| #[trigger] m.workers.contains_key(k) ==> {
        &&& m.workers[k].start is Some
        &&& m.workers[k].stop is Some
        &&& m.workers[k].deadline is Some
        &&& m.workers[k].start.unwrap() <= m.workers[k].stop.unwrap()
    }
}

/// The outcome of every known worker, in increasing order of task id: the
/// time from deadline start to stop, the deadline, and whether the
/// duration stayed within it.
pub fn burst_outcomes(context: &Context) -> (r: Vec<BurstOutcome>)
    requires
        outcomes_ready(context.model()),
    ensures
        strictly_increasing(r@.map_values(|o: BurstOutcome| o.task_id)),
        forall|k: u32| context.model().workers.contains_key(k)
            <==> exists|i: int| 0 <= i < r@.len() && #[trigger] r@[i].task_id == k,
        forall|i: int| #![trigger r@[i]] 0 <= i < r@.len() ==> {
            let w = context.model().workers[r@[i].task_id];
            &&& context.model().workers.contains_key(r@[i].task_id)
            &&& r@[i].name@ == w.name
            &&& r@[i].duration == w.stop.unwrap() - w.start.unwrap()
            &&& r@[i].deadline == w.deadline.unwrap()
            &&& r@[i].passed == (r@[i].duration <= r@[i].deadline)
        },
{
    let ghost m = context.model();
    let keys = sorted_keys(&context.worker_tasks);
    let mut out: Vec<BurstOutcome> = Vec::new();
    let n = keys.len();
    for i in 0..n
        invariant
            n == keys@.len(),
            m == context.model(),
            outcomes_ready(m),
            forall|k: u32| m.workers.contains_key(k) <==> keys@.contains(k),
            out@.len() == i,
            forall|j: int| #![trigger out@[j]] 0 <= j < i ==> {
                let w = m.workers[keys@[j]];
                &&& out@[j].task_id == keys@[j]
                &&& out@[j].name@ == w.name
                &&& out@[j].duration == w.stop.unwrap() - w.start.unwrap()
                &&& out@[j].deadline == w.deadline.unwrap()
                &&& out@[j].passed == (out@[j].duration <= out@[j].deadline)
            },
    {
        let k = keys[i];
        assert(keys@.contains(k));
        assert(m.workers.contains_key(k));
        let v = context.worker_tasks.get(&k).unwrap();
        let start = v.start.unwrap();
        let stop = v.stop.unwrap();
        let deadline = v.deadline.unwrap();
        let duration = stop - start;
        out.push(BurstOutcome {
            task_id: k,
            name: v.name.clone(),
            duration,
            deadline,
            passed: duration <= deadline,
        });
    }
    proof {
        assert(out@.map_values(|o: BurstOutcome| o.task_id) =~= keys@);
        assert forall|k: u32| m.workers.contains_key(k)
            implies exists|i: int| 0 <= i < out@.len() && #[trigger] out@[i].task_id == k by {
            assert(keys@.contains(k));
            let j = choose|j: int| 0 <= j < keys@.len() && keys@[j] == k;
            assert(out@[j].task_id == k);
        }
        assert forall|i: int| 0 <= i < out@.len() implies m.workers.contains_key(
            #[trigger] out@[i].task_id,
        ) by {
            assert(keys@.contains(keys@[i]));
        }
    }
    out
}

} // verus!
