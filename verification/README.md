# demo

A verified toolkit for tracing an embassy executor on a microcontroller and
for generating load on it.

- `src/icd.rs`, `src/step_list.rs`: the messages shared by device and host;
  the steps of a worker task are held in a bounded `heapless::Vec`.
- `src/exec.rs`, `src/task.rs`: how executor and task time is accounted as
  trace events arrive, and the deadline statistics of each task.
- `src/system.rs`: the host-side state fed one trace event at a time, and the
  periodic reports taken from it.
- `src/burst.rs`, `src/scenario.rs`: the task sets of the two experiments,
  and the deadline bookkeeping of the burst run.
- `src/device.rs`: the decisions of the device firmware (staging, starting
  and halting workers, the plan of a worker's pass, trace event ids, the
  drain of the trace queue).
- `src/hex.rs`: task, worker and serial names.
- `src/laws.rs`: properties across operations, such as conservation of
  accounted time.
- `app/`: the host programs (`stream`, `burst`, `scenario`), which talk to
  the device through poststation and print the reports.
