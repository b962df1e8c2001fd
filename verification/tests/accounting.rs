use demo::exec::{ExecData, ExecState, ExecTime};
use demo::task::{DeadlineState, TaskData, TaskState, TaskTime};

fn exec_at(state: ExecState) -> ExecData {
    ExecData { state, time: ExecTime { ticks_idle: 0, ticks_sched: 0, ticks_poll: 0 } }
}

#[test]
fn exec_leaving_idle_accounts_idle_time() {
    let mut e = exec_at(ExecState::Idle { since: 10 });
    assert!(!e.set_sched(25));
    assert_eq!(e.state, ExecState::Scheduling { since: 25 });
    assert_eq!(e.time, ExecTime { ticks_idle: 15, ticks_sched: 0, ticks_poll: 0 });
    e.set_polling(30);
    assert_eq!(e.time.ticks_sched, 5);
    e.set_idle(100);
    assert_eq!(e.time.ticks_poll, 70);
    assert_eq!(e.state, ExecState::Idle { since: 100 });
}

#[test]
fn exec_same_state_changes_nothing() {
    let mut e = exec_at(ExecState::Polling { since: 7 });
    assert!(e.set_polling(50));
    assert_eq!(e.state, ExecState::Polling { since: 7 });
    assert_eq!(e.time.ticks_poll, 0);
}

#[test]
fn exec_time_conserved_over_moves() {
    // total accounted minus start of current state stays constant
    let mut e = exec_at(ExecState::Idle { since: 0 });
    let before = e.time.ticks_idle + e.time.ticks_sched + e.time.ticks_poll;
    e.set_sched(40);
    e.set_polling(45);
    e.set_idle(90);
    let after = e.time.ticks_idle + e.time.ticks_sched + e.time.ticks_poll;
    assert_eq!(after - 90, before - 0);
}

#[test]
fn exec_report_holds_open_interval_and_resets() {
    let mut e = exec_at(ExecState::Scheduling { since: 100 });
    e.time.ticks_idle = 3;
    let r = e.take_report(160);
    assert_eq!(r, ExecTime { ticks_idle: 3, ticks_sched: 60, ticks_poll: 0 });
    assert_eq!(e.time, ExecTime { ticks_idle: 0, ticks_sched: 0, ticks_poll: 0 });
    assert_eq!(e.state, ExecState::Scheduling { since: 160 });
}

#[test]
fn task_names_are_hex_ids() {
    assert_eq!(TaskData::new_idle(0x1234, 0).name, "T-00001234");
    assert_eq!(TaskData::new_waiting(0xDEADBEEF, 0).name, "T-DEADBEEF");
    assert_eq!(TaskData::new_active(0, 5).name, "T-00000000");
    assert_ne!(TaskData::new_idle(1, 0).name, TaskData::new_idle(16, 0).name);
}

#[test]
fn task_wakeup_counts_and_accounts_idle_time() {
    let mut t = TaskData::new_idle(1, 100);
    t.set_waiting(130);
    assert_eq!(t.readies, 1);
    assert_eq!(t.time.ticks_idle, 30);
    assert_eq!(t.state, TaskState::Waiting { since: 130 });
    // a second wake-up while waiting changes nothing
    t.set_waiting(140);
    assert_eq!(t.readies, 1);
    assert_eq!(t.state, TaskState::Waiting { since: 130 });
    t.set_active(150);
    assert_eq!(t.time.ticks_waiting, 20);
    assert_eq!(t.state, TaskState::Active { since: 150, pended: false });
}

#[test]
fn task_made_ready_while_running_waits_after_run() {
    let mut t = TaskData::new_active(2, 0);
    t.set_waiting(5);
    assert_eq!(t.state, TaskState::Active { since: 0, pended: true });
    assert!(!t.set_idle(12));
    assert_eq!(t.time.ticks_active, 12);
    assert_eq!(t.state, TaskState::Waiting { since: 12 });
    t.set_active(20);
    t.set_idle(25);
    assert_eq!(t.time.ticks_active, 17);
    assert_eq!(t.state, TaskState::Idle { since: 25 });
}

#[test]
fn task_unexpected_moves_restart_without_accounting() {
    let mut t = TaskData::new_idle(3, 0);
    assert!(t.set_active(10));
    assert_eq!(t.time, TaskTime { ticks_active: 0, ticks_waiting: 0, ticks_idle: 0 });
    let mut w = TaskData::new_waiting(3, 0);
    assert!(w.set_idle(10));
    assert_eq!(w.time.ticks_waiting, 0);
    assert_eq!(w.state, TaskState::Idle { since: 10 });
}

#[test]
fn deadline_met_and_violated() {
    let mut t = TaskData::new_idle(4, 0);
    t.start_deadline(100, 50);
    assert_eq!(t.dead.deadstate, DeadlineState::Active { at: 100, deadline_at: 150 });
    t.stop_deadline(150);
    assert_eq!(t.dead.deadlines_met, 1);
    assert_eq!(t.dead.deadlines_violated, 0);
    t.start_deadline(200, 10);
    t.stop_deadline(215);
    assert_eq!(t.dead.deadlines_retired, 2);
    assert_eq!(t.dead.deadlines_violated, 1);
    assert_eq!(t.dead.deadline_deviant_ticks, 5);
    assert_eq!(t.dead.deadlines_retired, t.dead.deadlines_met + t.dead.deadlines_violated);
    // stopping with no deadline running changes nothing
    t.stop_deadline(300);
    assert_eq!(t.dead.deadlines_retired, 2);
}

#[test]
fn task_report_takes_everything_and_resets() {
    let mut t = TaskData::new_idle(5, 0);
    t.set_waiting(10);
    t.set_active(15);
    t.start_deadline(15, 100);
    let (readies, time, dead) = t.take_report(40);
    assert_eq!(readies, 1);
    assert_eq!(time, TaskTime { ticks_active: 25, ticks_waiting: 5, ticks_idle: 10 });
    assert_eq!(dead.deadlines_retired, 0);
    assert_eq!(t.readies, 0);
    assert_eq!(t.time, TaskTime { ticks_active: 0, ticks_waiting: 0, ticks_idle: 0 });
    assert_eq!(t.state, TaskState::Active { since: 40, pended: false });
    // the running deadline survives the report
    assert_eq!(t.dead.deadstate, DeadlineState::Active { at: 15, deadline_at: 115 });
}
