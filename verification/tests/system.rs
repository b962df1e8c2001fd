use demo::exec::{ExecState, ExecTime};
use demo::icd::Event;
use demo::system::{render_due, System, Warning};
use demo::task::TaskState;

fn started(tick: u64) -> System {
    let mut s = System::default();
    let e = Event::ExecutorPollStart { tick };
    assert!(s.can_handle_evt(&e, 4));
    s.handle_evt(e, 4);
    s
}

#[test]
fn events_before_first_poll_start_are_dropped() {
    let mut s = System::default();
    s.handle_evt(Event::TaskExecBegin { tick: 5, task_id: 1 }, 10);
    s.handle_evt(Event::ExecutorIdle { tick: 5 }, 10);
    assert!(s.tasks.is_empty());
    assert_eq!(s.bytes, 0);
    assert_eq!(s.last_delta, None);
}

#[test]
fn first_poll_start_sets_reference_and_schedules() {
    let s = started(1000);
    assert_eq!(s.last_delta, Some(1000));
    assert_eq!(s.current_tick, 1000);
    assert_eq!(s.executor.state, ExecState::Scheduling { since: 1000 });
    assert_eq!(s.executor.time, ExecTime { ticks_idle: 0, ticks_sched: 0, ticks_poll: 0 });
    assert_eq!(s.bytes, 4);
}

#[test]
fn relative_ticks_are_resolved_against_last_poll_start() {
    let mut s = started(1000);
    s.handle_evt(Event::TaskExecBegin { tick: 10, task_id: 7 }, 3);
    assert_eq!(s.current_tick, 1010);
    assert_eq!(s.executor.state, ExecState::Polling { since: 1010 });
    assert_eq!(s.executor.time.ticks_sched, 10);
    let t = s.tasks.get(&7).unwrap();
    assert_eq!(t.name, "T-00000007");
    assert_eq!(t.state, TaskState::Active { since: 1010, pended: false });
    s.handle_evt(Event::TaskExecEnd { tick: 25, task_id: 7 }, 3);
    assert_eq!(s.tasks.get(&7).unwrap().time.ticks_active, 15);
    assert_eq!(s.executor.time.ticks_poll, 15);
    s.handle_evt(Event::ExecutorPollStart { tick: 2000 }, 3);
    assert_eq!(s.last_delta, Some(2000));
    s.handle_evt(Event::TaskReadyBegin { tick: 5, task_id: 7 }, 3);
    let t = s.tasks.get(&7).unwrap();
    assert_eq!(t.readies, 1);
    assert_eq!(t.time.ticks_idle, 2005 - 1025);
    assert_eq!(s.bytes, 16);
}

#[test]
fn identify_and_deadlines_only_touch_known_tasks() {
    let mut s = started(0);
    s.handle_evt(Event::TaskIdentify { tick: 1, task_id: 9, name: "nobody".to_string() }, 0);
    assert!(s.tasks.get(&9).is_none());
    s.handle_evt(Event::TaskReadyBegin { tick: 2, task_id: 9 }, 0);
    s.handle_evt(Event::TaskIdentify { tick: 3, task_id: 9, name: "WRK-000001".to_string() }, 0);
    assert_eq!(s.tasks.get(&9).unwrap().name, "WRK-000001");
    s.handle_evt(Event::DeadlineStart { tick: 4, task_id: 9, deadline: 10 }, 0);
    s.handle_evt(Event::DeadlineStop { tick: 20, task_id: 9 }, 0);
    let d = s.tasks.get(&9).unwrap().dead;
    assert_eq!(d.deadlines_violated, 1);
    assert_eq!(d.deadline_deviant_ticks, 6);
    s.handle_evt(Event::DeadlineStop { tick: 30, task_id: 42 }, 0);
    assert!(s.tasks.get(&42).is_none());
}

#[test]
fn overflowing_events_are_refused_by_the_check() {
    let s = started(u64::MAX - 5);
    assert!(!s.can_handle_evt(&Event::ExecutorIdle { tick: 10 }, 0));
    assert!(s.can_handle_evt(&Event::ExecutorIdle { tick: 5 }, 0));
    assert!(!s.can_handle_evt(&Event::TaskNew { tick: 0, task_id: 1 }, usize::MAX));
    let mut back = started(100);
    back.handle_evt(Event::TaskExecBegin { tick: 10, task_id: 1 }, 0);
    // a poll start before the executor started polling
    assert!(!back.can_handle_evt(&Event::ExecutorPollStart { tick: 50 }, 0));
    assert!(back.can_handle_evt(&Event::ExecutorPollStart { tick: 150 }, 0));
}

#[test]
fn capture_report_lists_tasks_in_id_order() {
    let mut s = started(0);
    for id in [30u32, 5, 17, 2] {
        s.handle_evt(Event::TaskReadyBegin { tick: 1, task_id: id }, 1);
    }
    s.handle_evt(Event::ExecutorIdle { tick: 40 }, 1);
    assert!(s.can_capture_now());
    let r = s.capture_report();
    let ids: Vec<u32> = r.tasks.iter().map(|t| t.task_id).collect();
    assert_eq!(ids, vec![2, 5, 17, 30]);
    assert_eq!(r.bytes, 9);
    assert_eq!(s.bytes, 0);
    assert_eq!(r.exec_time, ExecTime { ticks_idle: 0, ticks_sched: 40, ticks_poll: 0 });
    assert_eq!(r.tasks[0].name, "T-00000002");
    assert_eq!(r.tasks[0].time.ticks_waiting, 39);
    assert_eq!(s.tasks.len(), 4);
    assert_eq!(s.tasks.get(&2).unwrap().time.ticks_waiting, 0);
    assert_eq!(s.executor.state, ExecState::Idle { since: 40 });
}

#[test]
fn first_render_check_only_starts_the_clock() {
    let mut s = started(0);
    assert!(s.last_render.is_none());
    let r = s.check_render();
    assert!(r.is_none());
    assert!(s.last_render.is_some());
    assert_eq!(s.bytes, 4);
}

#[test]
fn render_due_after_more_than_a_second() {
    assert!(!render_due(1_000_000_000));
    assert!(render_due(1_000_000_001));
    assert!(!render_due(0));
}

#[test]
fn executor_report_covers_the_interval_between_reports() {
    let mut s = started(500);
    s.handle_evt(Event::TaskExecBegin { tick: 3, task_id: 1 }, 0);
    let first = s.capture_report();
    let t1 = s.current_tick;
    assert_eq!(first.exec_time.ticks_sched + first.exec_time.ticks_poll + first.exec_time.ticks_idle, 3);
    s.handle_evt(Event::TaskExecEnd { tick: 10, task_id: 1 }, 0);
    s.handle_evt(Event::ExecutorIdle { tick: 12 }, 0);
    s.handle_evt(Event::ExecutorPollStart { tick: 900 }, 0);
    s.handle_evt(Event::TaskExecBegin { tick: 4, task_id: 1 }, 0);
    let second = s.capture_report();
    let total = second.exec_time.ticks_sched + second.exec_time.ticks_poll + second.exec_time.ticks_idle;
    assert_eq!(total, s.current_tick - t1);
    assert_eq!(second.exec_time.ticks_idle, 900 - 512);
}

#[test]
fn unexpected_moves_are_reported() {
    let mut s = started(0);
    // already scheduling after the first poll start
    assert_eq!(s.handle_evt(Event::ExecutorPollStart { tick: 5 }, 0), vec![Warning::ExecSchedAgain]);
    s.handle_evt(Event::TaskExecBegin { tick: 1, task_id: 1 }, 0);
    s.handle_evt(Event::TaskExecEnd { tick: 2, task_id: 1 }, 0);
    // task 1 is idle and starts to run without a wake-up, executor was scheduling
    assert_eq!(s.handle_evt(Event::TaskExecBegin { tick: 3, task_id: 1 }, 0), vec![Warning::IdleToActive]);
    assert_eq!(s.handle_evt(Event::TaskExecBegin { tick: 4, task_id: 1 }, 0), vec![Warning::ExecPollAgain]);
    s.handle_evt(Event::TaskReadyBegin { tick: 5, task_id: 2 }, 0);
    assert_eq!(
        s.handle_evt(Event::TaskExecEnd { tick: 6, task_id: 2 }, 0),
        vec![Warning::WaitingToIdle]
    );
    s.handle_evt(Event::ExecutorIdle { tick: 7 }, 0);
    assert_eq!(s.handle_evt(Event::ExecutorIdle { tick: 8 }, 0), vec![Warning::ExecIdleAgain]);
    assert!(s.handle_evt(Event::TaskNew { tick: 9, task_id: 3 }, 0).is_empty());
}

#[test]
fn render_if_due_reports_only_after_a_second() {
    let mut s = started(0);
    s.handle_evt(Event::ExecutorIdle { tick: 30 }, 2);
    assert!(s.render_if_due(1_000_000_000).is_none());
    assert_eq!(s.bytes, 6);
    let r = s.render_if_due(1_000_000_001).unwrap();
    assert_eq!(r.bytes, 6);
    assert_eq!(r.exec_time.ticks_sched, 30);
    assert_eq!(s.bytes, 0);
}

#[test]
fn second_capture_is_empty() {
    let mut s = started(0);
    s.handle_evt(Event::TaskReadyBegin { tick: 4, task_id: 8 }, 1);
    s.handle_evt(Event::ExecutorIdle { tick: 9 }, 1);
    let _ = s.capture_report();
    let again = s.capture_report();
    assert_eq!(again.bytes, 0);
    assert_eq!(again.exec_time, ExecTime { ticks_idle: 0, ticks_sched: 0, ticks_poll: 0 });
    assert_eq!(again.tasks.len(), 1);
    assert_eq!(again.tasks[0].task_id, 8);
    assert_eq!(again.tasks[0].readies, 0);
    assert_eq!(again.tasks[0].time.ticks_waiting, 0);
}
