use demo::burst::{build_burst_tasks, burst_outcomes, handle_evt, BurstConfig, Context};
use demo::icd::{Event, Step};
use demo::scenario::scenario_commands;

fn cfg(load_tasks: usize, crit_iters: usize) -> BurstConfig {
    BurstConfig {
        load_tasks,
        load_deadline_base: 15 * 32768,
        load_deadline_incr: 30,
        load_deadline_work: 65,
        timing_pulse_interval: 32768 / 4,
        crit_start_delay: 32768 * 2,
        crit_work_ticks: 33,
        crit_sleep_ticks: 11,
        crit_deadline_ticks: ((33 * 3) + (11 * 2)) * 3,
        crit_iters,
    }
}

#[test]
fn burst_builds_load_crit_and_timing_tasks() {
    let tasks = build_burst_tasks(&cfg(3, 3));
    assert_eq!(tasks.len(), 5);
    for (i, t) in tasks[..3].iter().enumerate() {
        assert_eq!(t.ident, i as u32);
        assert_eq!(t.deadline_ticks, 15 * 32768 + 30 * i as u64);
        assert_eq!(t.steps.len(), 32);
        assert_eq!(t.steps[0], Step::WaitTrigger);
        assert_eq!(t.steps[1], Step::WorkTicks { ticks: 65 });
        assert!(!t.manual_start_stop);
    }
    let crit = &tasks[3];
    assert_eq!(crit.ident, 100);
    assert!(crit.manual_start_stop);
    assert_eq!(crit.start_delay_ticks, 65536);
    assert_eq!(crit.deadline_ticks, 363);
    assert_eq!(
        crit.steps.as_slice(),
        &[
            Step::WaitTrigger,
            Step::ManualDeadlineStart,
            Step::WorkTicks { ticks: 33 },
            Step::SleepTicks { ticks: 11 },
            Step::WorkTicks { ticks: 33 },
            Step::SleepTicks { ticks: 11 },
            Step::WorkTicks { ticks: 33 },
            Step::ManualDeadlineStop,
        ]
    );
    let timing = &tasks[4];
    assert_eq!(timing.ident, 110);
    assert_eq!(timing.deadline_ticks, 17 * 8192);
    assert_eq!(timing.steps.len(), 32);
    assert_eq!(timing.steps[0], Step::SleepTicks { ticks: 8192 });
    assert_eq!(timing.steps[31], Step::WakeTrigger);
}

#[test]
fn burst_without_iterations_drops_the_deadline_start() {
    let tasks = build_burst_tasks(&cfg(0, 0));
    assert_eq!(tasks.len(), 2);
    assert_eq!(tasks[0].steps.as_slice(), &[Step::WaitTrigger, Step::ManualDeadlineStop]);
}

#[test]
fn burst_context_tracks_worker_deadlines() {
    let mut c = Context::default();
    let evs = vec![
        Event::TaskIdentify { tick: 1, task_id: 3, name: "WRK-000003".to_string() },
        Event::ExecutorPollStart { tick: 1000 },
        Event::TaskIdentify { tick: 1, task_id: 3, name: "WRK-000003".to_string() },
        Event::TaskIdentify { tick: 2, task_id: 4, name: "MAIN_TASK".to_string() },
        Event::DeadlineStart { tick: 10, task_id: 3, deadline: 50 },
    ];
    for e in &evs {
        assert!(c.can_handle(e));
        handle_evt(e, &mut c);
    }
    assert_eq!(c.all_events.len(), 4);
    assert!(c.worker_tasks.get(&4).is_none());
    assert!(!c.all_done());
    let w = c.worker_tasks.get(&3).unwrap();
    assert_eq!(w.start, Some(1010));
    assert_eq!(w.deadline, Some(50));
    // a second start of the same deadline is refused
    assert!(!c.can_handle(&Event::DeadlineStart { tick: 11, task_id: 3, deadline: 50 }));
    let stop = Event::DeadlineStop { tick: 70, task_id: 3 };
    handle_evt(&stop, &mut c);
    assert!(c.all_done());
    let out = burst_outcomes(&c);
    assert_eq!(out.len(), 1);
    assert_eq!(out[0].name, "WRK-000003");
    assert_eq!(out[0].duration, 60);
    assert!(!out[0].passed);
}

#[test]
fn scenario_has_forty_looping_tasks() {
    let cmds = scenario_commands();
    assert_eq!(cmds.len(), 40);
    assert_eq!(cmds[0].ident, 100);
    assert_eq!(cmds[39].ident, 139);
    assert_eq!(cmds[5].start_delay_ticks, 105 * 150);
    assert!(cmds[0].loops);
    assert_eq!(cmds[0].deadline_ticks, 16600);
    assert_eq!(cmds[0].steps.len(), 16);
    assert_eq!(cmds[0].steps[0], Step::WorkTicks { ticks: 16 });
    assert_eq!(cmds[0].steps[7], Step::SleepTicks { ticks: 8192 });
}
