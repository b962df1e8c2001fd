use demo::burst::{build_burst_tasks, BurstConfig};
use demo::device::{
    after_pass, check_runnable, chunk_len, drain_again, get_led, halt_tasks, note_pending, set_led,
    stage_task, stage_wants_spawn, start_tasks, tick_delta, trace_task_id, unique_id_from_words,
    worker_pass, DrainState, LoadState, WorkerAction, task_identify, deadline_start, deadline_stop,
    warming_up, log_period_over, worker_prelude, worker_epilogue,
};
use demo::icd::Event;
use demo::hex::{make_task_name, make_worker_name, serial_string};
use demo::icd::{HaltClearError, LedState, StageCommand, StageError, StartError, Step};

#[test]
fn load_state_machine() {
    let mut s = LoadState::Idle;
    assert_eq!(start_tasks(&mut s), Err(StartError::NoTasksStaged));
    assert_eq!(halt_tasks(&mut s), Err(HaltClearError::NotRunning));
    assert!(stage_wants_spawn(&s));
    assert_eq!(stage_task(&mut s, false), Err(StageError::OutOfSpace));
    assert_eq!(s, LoadState::Idle);
    assert_eq!(stage_task(&mut s, true), Ok(()));
    assert_eq!(stage_task(&mut s, true), Ok(()));
    assert_eq!(s, LoadState::Pending(2));
    assert_eq!(start_tasks(&mut s), Ok(2));
    assert_eq!(s, LoadState::Running(2));
    assert!(!stage_wants_spawn(&s));
    assert_eq!(stage_task(&mut s, false), Err(StageError::AlreadyRunning));
    assert_eq!(start_tasks(&mut s), Err(StartError::AlreadyRunning));
    assert_eq!(halt_tasks(&mut s), Ok(2));
    assert_eq!(s, LoadState::Idle);
}

#[test]
fn halt_clears_pending_tasks() {
    let mut s = LoadState::Pending(3);
    assert_eq!(halt_tasks(&mut s), Ok(3));
    assert_eq!(s, LoadState::Idle);
}

#[test]
fn led_reads_back_as_set() {
    assert!(set_led(LedState::Off));
    assert!(!set_led(LedState::On));
    for st in [LedState::On, LedState::Off] {
        assert_eq!(get_led(set_led(st)), st);
    }
}

#[test]
fn ids_and_names() {
    assert_eq!(unique_id_from_words(0xEBB2D27E, 0x4274E020), 0x4274E020EBB2D27E);
    assert_eq!(serial_string(0x4274E020EBB2D27E), "4274E020EBB2D27E");
    assert_eq!(serial_string(1), "0000000000000001");
    assert_eq!(make_task_name(0xAB), "T-000000AB");
    assert_eq!(make_worker_name(100), "WRK-000064");
    assert_eq!(make_worker_name(0x0100_0000), "WRK-");
    assert_eq!(make_worker_name(0xFFFF_FFFF), "WRK-");
    assert_eq!(make_worker_name(0xFF_FFFF), "WRK-FFFFFF");
    assert_eq!(trace_task_id(0x2000_1234), 0x1234);
    assert_eq!(tick_delta(50, 20), 30);
}

#[test]
fn pending_bytes_wake_the_drain_task() {
    assert_eq!(note_pending(3000, 72), (3072, false));
    assert_eq!(note_pending(3072, 1), (0, true));
}

#[test]
fn drain_chunks() {
    assert_eq!(chunk_len(100), 100);
    assert_eq!(chunk_len(5000), 768);
    assert!(drain_again(768));
    assert!(!drain_again(767));
    let mut d = DrainState::new();
    d.sent_chunk(768, false);
    assert!(!d.was_good);
    d.sent_chunk(100, true);
    assert_eq!((d.ttl, d.drains, d.ctr, d.was_good), (868, 2, 2, true));
    d.ctr = u32::MAX;
    d.sent_chunk(1, true);
    assert_eq!(d.ctr, 0);
    d.new_period();
    assert_eq!((d.ttl, d.drains), (0, 0));
}

fn cmd(steps: &[Step], loops: bool, manual: bool) -> StageCommand {
    let mut v = heapless::Vec::new();
    for s in steps {
        v.push(*s).unwrap();
    }
    StageCommand {
        ident: 1,
        steps: v,
        loops,
        deadline_ticks: 500,
        loop_delay_ticks: 9,
        start_delay_ticks: 0,
        manual_start_stop: manual,
    }
}

#[test]
fn worker_pass_frames_steps_with_deadline() {
    let c = cmd(&[Step::WorkTicks { ticks: 3 }, Step::Yield, Step::SleepTicks { ticks: 4 }], false, false);
    assert_eq!(
        worker_pass(&c),
        vec![
            WorkerAction::DeadlineStart { deadline: 500 },
            WorkerAction::Work { ticks: 3 },
            WorkerAction::Yield,
            WorkerAction::Sleep { ticks: 4 },
            WorkerAction::DeadlineStop,
        ]
    );
    assert_eq!(after_pass(&c), None);
    let m = cmd(&[Step::ManualDeadlineStart, Step::WakeTrigger, Step::ManualDeadlineStop], true, true);
    assert_eq!(
        worker_pass(&m),
        vec![
            WorkerAction::DeadlineStart { deadline: 500 },
            WorkerAction::Yield,
            WorkerAction::WakeTrigger,
            WorkerAction::DeadlineStop,
        ]
    );
    assert_eq!(after_pass(&m), Some(9));
}

#[test]
fn worker_refuses_bad_commands() {
    assert!(!check_runnable(&cmd(&[], true, false)));
    assert!(check_runnable(&cmd(&[], false, false)));
    assert!(!check_runnable(&cmd(&[Step::ManualDeadlineStart], false, false)));
    assert!(check_runnable(&cmd(&[Step::ManualDeadlineStop], false, true)));
}

#[test]
fn burst_tasks_are_runnable() {
    let c = BurstConfig {
        load_tasks: 2,
        load_deadline_base: 100,
        load_deadline_incr: 1,
        load_deadline_work: 2,
        timing_pulse_interval: 3,
        crit_start_delay: 4,
        crit_work_ticks: 5,
        crit_sleep_ticks: 6,
        crit_deadline_ticks: 7,
        crit_iters: 15,
    };
    for t in build_burst_tasks(&c) {
        assert!(check_runnable(&t));
    }
}

#[test]
fn trace_events_use_task_offsets() {
    match task_identify(0x2000_0040, "WRK-000001".to_string(), 7) {
        Event::TaskIdentify { tick, task_id, name } => {
            assert_eq!((tick, task_id), (7, 0x40));
            assert_eq!(name, "WRK-000001");
        }
        _ => panic!("wrong event"),
    }
    match deadline_start(0x2000_0100, 500, 3) {
        Event::DeadlineStart { tick, task_id, deadline } => assert_eq!((tick, task_id, deadline), (3, 0x100, 500)),
        _ => panic!("wrong event"),
    }
    match deadline_stop(0x2000_0000, 9) {
        Event::DeadlineStop { tick, task_id } => assert_eq!((tick, task_id), (9, 0)),
        _ => panic!("wrong event"),
    }
}

#[test]
fn sleep_reply_keeps_low_bits() {
    assert_eq!(demo::device::slept_millis(250).millis, 250);
    assert_eq!(demo::device::slept_millis(65536 + 7).millis, 7);
}

#[test]
fn drain_time_decisions() {
    assert!(warming_up(2_999_999_999));
    assert!(!warming_up(3_000_000_000));
    assert!(!log_period_over(999_999_999));
    assert!(log_period_over(1_000_000_000));
}

#[test]
fn worker_waits_for_start_and_stops_deadline_on_halt() {
    let mut c = cmd(&[Step::Yield], false, false);
    c.start_delay_ticks = 77;
    assert_eq!(worker_prelude(&c), vec![WorkerAction::WaitStage, WorkerAction::Sleep { ticks: 77 }]);
    assert_eq!(worker_epilogue(true), vec![WorkerAction::DeadlineStop]);
    assert!(worker_epilogue(false).is_empty());
}
