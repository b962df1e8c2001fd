//! The bounded list of worker steps carried by a stage command.

use vstd::prelude::*;
use crate::icd::Step;

verus! {

#[verifier::external_type_specification]
#[verifier::external_body]
#[verifier::reject_recursive_types(T)]
pub struct ExHeaplessVec<T, const N: usize>(heapless::Vec<T, N>);

/// The steps held by a step list, first to last.
pub uninterp spec fn step_list(v: heapless::Vec<Step, 32>) -> Seq<Step>;

/// `heapless::Vec::new`: the new list holds no step.
#[verifier::external_body]
pub fn steps_new() -> (v: heapless::Vec<Step, 32>)
    ensures
        step_list(v) == Seq::<Step>::empty(),
{
    heapless::Vec::new()
}

/// `heapless::Vec::push`: appends the step when fewer than 32 are held,
/// and otherwise hands it back and leaves the list as it was.
#[verifier::external_body]
pub fn steps_push(v: &mut heapless::Vec<Step, 32>, s: Step) -> (r: Result<(), Step>)
    ensures
        r is Ok <==> step_list(*old(v)).len() < 32,
        r is Ok ==> step_list(*final(v)) == step_list(*old(v)).push(s),
        r matches Err(back) ==> back == s && step_list(*final(v)) == step_list(*old(v)),
{
    v.push(s)
}

/// `heapless::Vec::pop`: removes and hands back the last step, or `None`
/// when the list is empty.
#[verifier::external_body]
pub fn steps_pop(v: &mut heapless::Vec<Step, 32>) -> (r: Option<Step>)
    ensures
        step_list(*old(v)).len() == 0 ==> r is None && step_list(*final(v)) == step_list(*old(v)),
        step_list(*old(v)).len() > 0 ==> r == Some(step_list(*old(v)).last())
            && step_list(*final(v)) == step_list(*old(v)).drop_last(),
{
    v.pop()
}

/// `heapless::Vec::as_slice`: the held steps, first to last.
#[verifier::external_body]
pub fn steps_as_slice(v: &heapless::Vec<Step, 32>) -> (r: &[Step])
    ensures
        r@ == step_list(*v),
{
    v.as_slice()
}

} // verus!
