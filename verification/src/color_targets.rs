//! The color states of a render pipeline, held in a vector of fixed
//! capacity: a pipeline writes to at most four color targets.

use crate::backend::ColorStateDescriptor;
use crate::bindings::GPUColorStateDescriptor;
use crate::convert::{color_state_of, convert_color_state};
use arrayvec::ArrayVec;
use vstd::prelude::*;

verus! {

#[verifier::external_type_specification]
#[verifier::external_body]
#[verifier::reject_recursive_types(T)]
pub struct ExArrayVec<T, const CAP: usize>(ArrayVec<T, CAP>);

/// The color states that the vector holds, in their order.
pub uninterp spec fn color_states_in(states: ArrayVec<ColorStateDescriptor, 4>) -> Seq<
    ColorStateDescriptor,
>;

/// Calls `ArrayVec::new`, which returns a vector that holds nothing. Not
/// proved.
#[verifier::external_body]
fn new_color_states() -> (states: ArrayVec<ColorStateDescriptor, 4>)
    ensures
        color_states_in(states) == Seq::<ColorStateDescriptor>::empty(),
{
    ArrayVec::new()
}

/// Calls `ArrayVec::try_push`, which appends the state and succeeds where
/// the vector holds fewer states than its capacity of four, and otherwise
/// fails and leaves the vector as it was. Not proved.
#[verifier::external_body]
fn try_push_color_state(
    states: &mut ArrayVec<ColorStateDescriptor, 4>,
    state: ColorStateDescriptor,
) -> (pushed: bool)
    ensures
        pushed == (color_states_in(*old(states)).len() < 4),
        color_states_in(*final(states)) == if pushed {
            color_states_in(*old(states)).push(state)
        } else {
            color_states_in(*old(states))
        },
{
    match states.try_push(state) {
        Ok(()) => true,
        Err(_) => false,
    }
}

/// The color states that reach the backend: those of the first four
/// targets, each translated; further ones are left out.
pub open spec fn color_states_of(states: Seq<GPUColorStateDescriptor>) -> Seq<
    ColorStateDescriptor,
> {
    states.take(if states.len() < 4 { states.len() as int } else { 4 }).map_values(
        |state: GPUColorStateDescriptor| color_state_of(state),
    )
}

pub fn convert_color_states(states: &Vec<GPUColorStateDescriptor>) -> (converted: ArrayVec<
    ColorStateDescriptor,
    4,
>)
    ensures
        color_states_in(converted) == color_states_of(states@),
{
    let mut converted = new_color_states();
    let mut i: usize = 0;
    let mut full = false;
    while i < states.len() && !full
        invariant
            i <= states.len(),
            !full ==> color_states_in(converted) == states@.take(i as int).map_values(
                |state: GPUColorStateDescriptor| color_state_of(state),
            ),
            !full ==> i <= 4,
            full ==> color_states_in(converted) == color_states_of(states@),
        decreases states.len() - i + if full { 0int } else { 1 },
    {
        let state = convert_color_state(&states[i]);
        let pushed = try_push_color_state(&mut converted, state);
        if pushed {
            assert(states@.take(i + 1).map_values(
                |state: GPUColorStateDescriptor| color_state_of(state),
            ) =~= states@.take(i as int).map_values(
                |state: GPUColorStateDescriptor| color_state_of(state),
            ).push(color_state_of(states@[i as int])));
            i += 1;
        } else {
            assert(i == 4);
            full = true;
        }
    }
    converted
}

} // verus!
