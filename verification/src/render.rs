use std::collections::VecDeque;

use vstd::prelude::*;

verus! {

/// The entries of an interleaved path that belong to object `obj_idx`: the path
/// stores `num_objects` entries per step, so step `t` of that object sits at
/// `t * num_objects + obj_idx`.
pub open spec fn track<U>(path: Seq<U>, num_objects: nat, num_steps: nat, obj_idx: nat) -> Seq<U> {
    Seq::new(num_steps, |t: int| path[t * num_objects + obj_idx])
}

/// Whether every step of object `obj_idx` lies inside a path of `len` entries.
pub open spec fn track_in_bounds(len: nat, num_objects: nat, num_steps: nat, obj_idx: nat) -> bool {
    num_steps == 0 || (num_steps - 1) * num_objects + obj_idx < len
}

/// Copies the first `num_steps` steps of object `obj_idx` out of the interleaved
/// `prediction` into the front of `path_data`.
pub fn gather_track<U: Copy>(
    path_data: &mut Vec<U>,
    prediction: &VecDeque<U>,
    num_objects: usize,
    num_steps: usize,
    obj_idx: usize,
)
    requires
        num_steps <= old(path_data)@.len(),
        track_in_bounds(prediction@.len(), num_objects as nat, num_steps as nat, obj_idx as nat),
    ensures
        final(path_data)@ == track(
            prediction@,
            num_objects as nat,
            num_steps as nat,
            obj_idx as nat,
        ) + old(path_data)@.skip(num_steps as int),
{
    let prediction_len = prediction.len();
    for step in 0..num_steps
        invariant
            prediction_len == prediction@.len(),
            num_steps <= old(path_data)@.len(),
            track_in_bounds(prediction@.len(), num_objects as nat, num_steps as nat, obj_idx as nat),
            path_data@.len() == old(path_data)@.len(),
            forall|t: int|
                0 <= t < step ==> #[trigger] path_data@[t] == prediction@[t * num_objects + obj_idx],
            forall|t: int| step <= t < path_data@.len() ==> #[trigger] path_data@[t] == old(path_data)@[t],
    {
        assert(step * num_objects <= (num_steps - 1) * num_objects) by (nonlinear_arith)
            requires
                step < num_steps,
        ;
        let at = step * num_objects + obj_idx;
        path_data.set(step, prediction[at]);
    }
    assert(path_data@ =~= track(prediction@, num_objects as nat, num_steps as nat, obj_idx as nat)
        + old(path_data)@.skip(num_steps as int));
}

/// Appends the six indices of the two triangles of a quad whose four vertices
/// start at `base`: `(base, base+1, base+2)` and `(base+2, base+1, base+3)`.
pub fn push_quad_indices(indices: &mut Vec<u16>, base: u32)
    requires
        base + 3 <= u16::MAX,
    ensures
        final(indices)@ == old(indices)@ + seq![
            base as u16,
            (base + 1) as u16,
            (base + 2) as u16,
            (base + 2) as u16,
            (base + 1) as u16,
            (base + 3) as u16,
        ],
{
    let b = base as u16;
    indices.push(b);
    indices.push(b + 1);
    indices.push(b + 2);
    indices.push(b + 2);
    indices.push(b + 1);
    indices.push(b + 3);
    assert(indices@ =~= old(indices)@ + seq![
        base as u16,
        (base + 1) as u16,
        (base + 2) as u16,
        (base + 2) as u16,
        (base + 1) as u16,
        (base + 3) as u16,
    ]);
}

} // verus!
