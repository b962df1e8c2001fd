//! The looping scenario: forty tasks that work in short slices and sleep.

use vstd::prelude::*;
use crate::icd::{StageCommand, Step};
use crate::step_list::{step_list, steps_new, steps_push};

verus! {

/// Ticks of one work slice: half a millisecond at 32768 ticks per second.
pub const SLICE_TICKS: u32 = 16;

/// Ticks of the sleep that ends each half of a run: a quarter second.
pub const REST_TICKS: u32 = 8192;

/// Deadline of one run of a scenario task.
pub const SCENARIO_DEADLINE_TICKS: u64 = 16600;

/// Start delay per unit of ident.
pub const START_DELAY_STEP: u64 = 150;

/// First ident of the scenario tasks.
pub const FIRST_IDENT: u32 = 100;

/// One past the last ident of the scenario tasks.
pub const END_IDENT: u32 = 140;

/// Half a run: four work slices separated by yields, then a rest.
pub open spec fn scenario_half() -> Seq<Step> {
    seq![
        Step::WorkTicks { ticks: SLICE_TICKS },
        Step::Yield,
        Step::WorkTicks { ticks: SLICE_TICKS },
        Step::Yield,
        Step::WorkTicks { ticks: SLICE_TICKS },
        Step::Yield,
        Step::WorkTicks { ticks: SLICE_TICKS },
        Step::SleepTicks { ticks: REST_TICKS },
    ]
}

/// The steps of a scenario task: two halves.
pub open spec fn scenario_steps() -> Seq<Step> {
    scenario_half() + scenario_half()
}

/// The scenario task with ident `i`.
pub open spec fn is_scenario_command(c: StageCommand, i: u32) -> bool {
    &&& c.ident == i
    &&& c.steps_seq() == scenario_steps()
    &&& c.loops
    &&& c.deadline_ticks == SCENARIO_DEADLINE_TICKS
    &&& c.loop_delay_ticks == 0
    &&& c.start_delay_ticks == i * START_DELAY_STEP
    &&& !c.manual_start_stop
}

/// Appends half a run to `steps`.
fn push_half(steps: &mut heapless::Vec<Step, 32>)
    requires
        step_list(*old(steps)).len() <= 24,
    ensures
        step_list(*final(steps)) == step_list(*old(steps)) + scenario_half(),
{
    let ghost s0 = step_list(*steps);
    let work = Step::WorkTicks { ticks: SLICE_TICKS };
    steps_push(steps, work).unwrap();
    steps_push(steps, Step::Yield).unwrap();
    steps_push(steps, work).unwrap();
    steps_push(steps, Step::Yield).unwrap();
    steps_push(steps, work).unwrap();
    steps_push(steps, Step::Yield).unwrap();
    steps_push(steps, work).unwrap();
    steps_push(steps, Step::SleepTicks { ticks: REST_TICKS }).unwrap();
    assert(step_list(*steps) =~= s0 + scenario_half());
}

/// The scenario task with ident `i`: it loops over two halves, each four
/// work slices and a rest, with a start delay that grows with its ident.
pub fn scenario_command(i: u32) -> (r: StageCommand)
    ensures
        is_scenario_command(r, i),
{
    let mut steps = steps_new();
    push_half(&mut steps);
    push_half(&mut steps);
    assert(step_list(steps) =~= scenario_steps());
    StageCommand {
        ident: i,
        steps,
        loops: true,
        deadline_ticks: SCENARIO_DEADLINE_TICKS,
        loop_delay_ticks: 0,
        start_delay_ticks: i as u64 * START_DELAY_STEP,
        manual_start_stop: false,
    }
}

/// All scenario tasks, with idents from 100 up to 139.
pub fn scenario_commands() -> (r: Vec<StageCommand>)
    ensures
        r@.len() == END_IDENT - FIRST_IDENT,
        forall|j: int| 0 <= j < r@.len() ==> is_scenario_command(#[trigger] r@[j], (FIRST_IDENT + j) as u32),
{
    let mut out: Vec<StageCommand> = Vec::new();
    let mut i: u32 = FIRST_IDENT;
    while i < END_IDENT
        invariant
            FIRST_IDENT <= i <= END_IDENT,
            out@.len() == i - FIRST_IDENT,
            forall|j: int| 0 <= j < out@.len() ==> is_scenario_command(#[trigger] out@[j], (FIRST_IDENT + j) as u32),
        decreases END_IDENT - i,
    {
        out.push(scenario_command(i));
        i = i + 1;
    }
    out
}

} // verus!
