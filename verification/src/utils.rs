use vstd::prelude::*;

use crate::objects::{Object, Vector2};

verus! {

/// Quantity `slot` (0: x position, 1: y position, 2: x velocity, 3: y velocity)
/// of a body.
pub open spec fn state_slot<T>(object: Object<T>, slot: int) -> T {
    if slot == 0 {
        object.position.x
    } else if slot == 1 {
        object.position.y
    } else if slot == 2 {
        object.velocity.x
    } else {
        object.velocity.y
    }
}

/// The flat state vector of a list of bodies: four entries per body, in body
/// order, each body as x position, y position, x velocity, y velocity.
pub open spec fn packed<T>(objects: Seq<Object<T>>) -> Seq<T> {
    Seq::new(4 * objects.len(), |k: int| state_slot(objects[k / 4], k % 4))
}

/// Body `i` of `objects` with its position and velocity read from entries
/// `4i .. 4i+4` of `state`; its mass is kept.
pub open spec fn unpacked_object<T>(state: Seq<T>, object: Object<T>, i: int) -> Object<T> {
    Object {
        position: Vector2 { x: state[4 * i], y: state[4 * i + 1] },
        velocity: Vector2 { x: state[4 * i + 2], y: state[4 * i + 3] },
        mass: object.mass,
    }
}

/// `objects` with the positions and velocities read back from `state`.
pub open spec fn unpacked<T>(state: Seq<T>, objects: Seq<Object<T>>) -> Seq<Object<T>> {
    Seq::new(objects.len(), |i: int| unpacked_object(state, objects[i], i))
}

/// Replaces `state` by the flat state vector of `objects`.
pub fn pack_state<T: Copy>(objects: &[Object<T>], state: &mut Vec<T>)
    requires
        4 * objects@.len() <= usize::MAX,
    ensures
        final(state)@ == packed(objects@),
{
    state.clear();
    let n = objects.len();
    for i in 0..n
        invariant
            n == objects@.len(),
            4 * n <= usize::MAX,
            state@ == packed(objects@.take(i as int)),
    {
        let obj = objects[i];
        state.push(obj.position.x);
        state.push(obj.position.y);
        state.push(obj.velocity.x);
        state.push(obj.velocity.y);
        assert(objects@.take(i + 1) =~= objects@.take(i as int).push(obj));
        assert(state@ =~= packed(objects@.take(i + 1)));
    }
    assert(objects@.take(n as int) =~= objects@);
}

/// Writes back into `objects` the positions and velocities held by `state`,
/// four entries per body; masses stay as they are.
pub fn unpack_state<T: Copy>(state: &[T], objects: &mut [Object<T>])
    requires
        4 * old(objects)@.len() <= state@.len(),
    ensures
        final(objects)@ == unpacked(state@, old(objects)@),
{
    let n = objects.len();
    let state_len = state.len();
    for i in 0..n
        invariant
            n == objects@.len(),
            n == old(objects)@.len(),
            state_len == state@.len(),
            4 * n <= state_len,
            forall|j: int| 0 <= j < i ==> #[trigger] objects@[j] == unpacked_object(
                state@,
                old(objects)@[j],
                j,
            ),
            forall|j: int| i <= j < n ==> #[trigger] objects@[j] == old(objects)@[j],
    {
        let base = i * 4;
        let mut obj = objects[i];
        obj.position.x = state[base];
        obj.position.y = state[base + 1];
        obj.velocity.x = state[base + 2];
        obj.velocity.y = state[base + 3];
        objects[i] = obj;
    }
    assert(objects@ =~= unpacked(state@, old(objects)@));
}

/// Writing a flat state vector back into the bodies it was made from gives
/// back those same bodies.
pub proof fn lemma_unpack_after_pack_restores<T>(objects: Seq<Object<T>>)
    ensures
        unpacked(packed(objects), objects) == objects,
{
    let state = packed(objects);
    assert forall|i: int| 0 <= i < objects.len() implies #[trigger] unpacked(state, objects)[i]
        == objects[i] by {
        assert((4 * i) / 4 == i && (4 * i) % 4 == 0);
        assert((4 * i + 1) / 4 == i && (4 * i + 1) % 4 == 1);
        assert((4 * i + 2) / 4 == i && (4 * i + 2) % 4 == 2);
        assert((4 * i + 3) / 4 == i && (4 * i + 3) % 4 == 3);
    }
    assert(unpacked(state, objects) =~= objects);
}

} // verus!
