use std::collections::VecDeque;

use vstd::prelude::*;

use crate::objects::{Objects, Vector2};
use crate::render::track;

verus! {

/// Which way in time a predictor looks.
#[derive(Clone, Copy, Debug, PartialEq, Eq, Structural)]
pub enum PredictionDirection {
    Future,
    Past,
}

/// A window of predicted positions.
///
/// `objects` is the head snapshot and `objects_terminal` the tail snapshot of
/// the window; `path` holds the positions of the first `body_count` bodies,
/// one frame per step, frames laid end to end.
pub struct Predictor<T> {
    pub objects: Objects<T>,
    pub objects_terminal: Objects<T>,
    pub path: VecDeque<Vector2<T>>,
    pub steps_completed: usize,
    pub max_steps: usize,
    pub direction: PredictionDirection,
}

/// The positions of bodies `0..body_count` of `objects`, in body order.
pub open spec fn frame<T>(objects: Objects<T>, body_count: nat) -> Seq<Vector2<T>> {
    Seq::new(body_count, |i: int| Vector2 { x: objects.position_x@[i], y: objects.position_y@[i] })
}

/// Whether `objects` has a position for each of bodies `0..body_count`.
pub open spec fn holds_bodies<T>(objects: Objects<T>, body_count: nat) -> bool {
    body_count <= objects.position_x@.len() && body_count <= objects.position_y@.len()
}

impl<T> Predictor<T> {
    /// Whether a step of the given sign moves the window along the predictor's own
    /// direction (forward for a future predictor, backward for a past one).
    pub open spec fn moves_along(&self, dt_positive: bool) -> bool {
        match self.direction {
            PredictionDirection::Future => dt_positive,
            PredictionDirection::Past => !dt_positive,
        }
    }

    /// The path after the window moved by one step: moving along the direction, the
    /// oldest frame leaves the front and the head frame joins the back; moving
    /// against it, the last frame leaves the back and the tail frame joins the front.
    pub open spec fn advanced_path(&self, dt_positive: bool, body_count: nat) -> Seq<Vector2<T>> {
        if self.moves_along(dt_positive) {
            self.path@.skip(body_count as int) + frame(self.objects, body_count)
        } else {
            let kept = if body_count <= self.path@.len() {
                self.path@.len() - body_count
            } else {
                0
            };
            frame(self.objects_terminal, body_count) + self.path@.take(kept)
        }
    }
}

impl<T: Copy> Predictor<T> {
    /// Records the head snapshot as the newest frame of the path after one
    /// integration step of it.
    pub fn record_step(&mut self, body_count: usize)
        requires
            holds_bodies(old(self).objects, body_count as nat),
            old(self).steps_completed < usize::MAX,
        ensures
            final(self).path@ == old(self).path@ + frame(old(self).objects, body_count as nat),
            final(self).steps_completed == old(self).steps_completed + 1,
            final(self).objects == old(self).objects,
            final(self).objects_terminal == old(self).objects_terminal,
            final(self).max_steps == old(self).max_steps,
            final(self).direction == old(self).direction,
    {
        for body_idx in 0..body_count
            invariant
                self.objects == old(self).objects,
                self.objects_terminal == old(self).objects_terminal,
                self.steps_completed == old(self).steps_completed,
                self.max_steps == old(self).max_steps,
                self.direction == old(self).direction,
                holds_bodies(self.objects, body_count as nat),
                self.path@ == old(self).path@ + frame(self.objects, body_idx as nat),
        {
            self.path.push_back(
                Vector2 { x: self.objects.position_x[body_idx], y: self.objects.position_y[body_idx] },
            );
            assert(self.path@ =~= old(self).path@ + frame(self.objects, (body_idx + 1) as nat));
        }
        self.steps_completed = self.steps_completed + 1;
    }

    /// Moves the window by one step after both snapshots were integrated by a step
    /// whose sign is `dt_positive`.
    pub fn advance_path(&mut self, dt_positive: bool, body_count: usize)
        requires
            old(self).moves_along(dt_positive) ==> body_count <= old(self).path@.len(),
            old(self).moves_along(dt_positive) ==> holds_bodies(
                old(self).objects,
                body_count as nat,
            ),
            !old(self).moves_along(dt_positive) ==> holds_bodies(
                old(self).objects_terminal,
                body_count as nat,
            ),
        ensures
            final(self).path@ == old(self).advanced_path(dt_positive, body_count as nat),
            final(self).steps_completed == old(self).steps_completed,
            final(self).objects == old(self).objects,
            final(self).objects_terminal == old(self).objects_terminal,
            final(self).max_steps == old(self).max_steps,
            final(self).direction == old(self).direction,
    {
        let along = match self.direction {
            PredictionDirection::Future => dt_positive,
            PredictionDirection::Past => !dt_positive,
        };
        if along {
            for k in 0..body_count
                invariant
                    self.objects == old(self).objects,
                    self.objects_terminal == old(self).objects_terminal,
                    self.steps_completed == old(self).steps_completed,
                    self.max_steps == old(self).max_steps,
                    self.direction == old(self).direction,
                    body_count <= old(self).path@.len(),
                    self.path@ == old(self).path@.skip(k as int),
            {
                self.path.pop_front();
                assert(self.path@ =~= old(self).path@.skip(k + 1));
            }
            for body_idx in 0..body_count
                invariant
                    self.objects == old(self).objects,
                    self.objects_terminal == old(self).objects_terminal,
                    self.steps_completed == old(self).steps_completed,
                    self.max_steps == old(self).max_steps,
                    self.direction == old(self).direction,
                    holds_bodies(self.objects, body_count as nat),
                    self.path@ == old(self).path@.skip(body_count as int) + frame(
                        self.objects,
                        body_idx as nat,
                    ),
            {
                self.path.push_back(
                    Vector2 {
                        x: self.objects.position_x[body_idx],
                        y: self.objects.position_y[body_idx],
                    },
                );
                assert(self.path@ =~= old(self).path@.skip(body_count as int) + frame(
                    self.objects,
                    (body_idx + 1) as nat,
                ));
            }
        } else {
            let ghost kept: int = if body_count <= old(self).path@.len() {
                old(self).path@.len() - body_count
            } else {
                0
            };
            for k in 0..body_count
                invariant
                    self.objects == old(self).objects,
                    self.objects_terminal == old(self).objects_terminal,
                    self.steps_completed == old(self).steps_completed,
                    self.max_steps == old(self).max_steps,
                    self.direction == old(self).direction,
                    self.path@ == old(self).path@.take(
                        if k <= old(self).path@.len() {
                            old(self).path@.len() - k
                        } else {
                            0
                        },
                    ),
            {
                self.path.pop_back();
                assert(self.path@ =~= old(self).path@.take(
                    if k + 1 <= old(self).path@.len() {
                        old(self).path@.len() - (k + 1)
                    } else {
                        0
                    },
                ));
            }
            let mut body_idx = body_count;
            while body_idx > 0
                invariant
                    self.objects == old(self).objects,
                    self.objects_terminal == old(self).objects_terminal,
                    self.steps_completed == old(self).steps_completed,
                    self.max_steps == old(self).max_steps,
                    self.direction == old(self).direction,
                    body_idx <= body_count,
                    holds_bodies(self.objects_terminal, body_count as nat),
                    self.path@ == frame(self.objects_terminal, body_count as nat).skip(
                        body_idx as int,
                    ) + old(self).path@.take(kept),
                decreases body_idx,
            {
                body_idx = body_idx - 1;
                self.path.push_front(
                    Vector2 {
                        x: self.objects_terminal.position_x[body_idx],
                        y: self.objects_terminal.position_y[body_idx],
                    },
                );
                assert(self.path@ =~= frame(self.objects_terminal, body_count as nat).skip(
                    body_idx as int,
                ) + old(self).path@.take(kept));
            }
            assert(frame(self.objects_terminal, body_count as nat).skip(0) =~= frame(
                self.objects_terminal,
                body_count as nat,
            ));
        }
    }
}

} // verus!

verus! {

/// Moving the window by one step keeps its size, as long as the path holds
/// at least one frame: as many positions join as leave.
pub proof fn lemma_advance_keeps_window_size<T>(
    predictor: Predictor<T>,
    dt_positive: bool,
    body_count: nat,
)
    requires
        body_count <= predictor.path@.len(),
    ensures
        predictor.advanced_path(dt_positive, body_count).len() == predictor.path@.len(),
{
}

} // verus!

verus! {

/// Recording a frame of `num_objects` bodies onto a path of `steps` whole frames
/// keeps every earlier step of each body's track and adds, as its newest step,
/// the body's position in the recorded snapshot.
pub proof fn lemma_recorded_frame_extends_track<T>(
    path: Seq<Vector2<T>>,
    objects: Objects<T>,
    num_objects: nat,
    steps: nat,
    obj_idx: nat,
)
    requires
        path.len() == steps * num_objects,
        obj_idx < num_objects,
    ensures
        track(path + frame(objects, num_objects), num_objects, steps + 1, obj_idx) == track(
            path,
            num_objects,
            steps,
            obj_idx,
        ).push(Vector2 { x: objects.position_x@[obj_idx as int], y: objects.position_y@[obj_idx as int] }),
{
    let extended = path + frame(objects, num_objects);
    let lhs = track(extended, num_objects, steps + 1, obj_idx);
    let rhs = track(path, num_objects, steps, obj_idx).push(
        Vector2 { x: objects.position_x@[obj_idx as int], y: objects.position_y@[obj_idx as int] },
    );
    assert forall|t: int| 0 <= t < steps + 1 implies #[trigger] lhs[t] == rhs[t] by {
        if t < steps {
            assert(t * num_objects + obj_idx < steps * num_objects) by (nonlinear_arith)
                requires
                    0 <= t < steps,
                    obj_idx < num_objects,
            ;
            assert(0 <= t * num_objects) by (nonlinear_arith)
                requires
                    0 <= t,
            ;
        } else {
            assert(t * num_objects == steps * num_objects);
        }
    }
    assert(lhs =~= rhs);
}

} // verus!

verus! {

/// A step along the predictor's direction drops the oldest `body_count`
/// positions from the front and appends, in body order, the head snapshot's
/// position `(position_x[i], position_y[i])` of each body `i < body_count`.
pub proof fn lemma_advance_along_appends_head_positions<T>(
    predictor: Predictor<T>,
    dt_positive: bool,
    body_count: nat,
)
    requires
        predictor.moves_along(dt_positive),
        body_count <= predictor.path@.len(),
    ensures
        ({
            let old_path = predictor.path@;
            let new_path = predictor.advanced_path(dt_positive, body_count);
            &&& new_path.len() == old_path.len()
            &&& forall|j: int|
                0 <= j < old_path.len() - body_count ==> #[trigger] new_path[j] == old_path[j
                    + body_count]
            &&& forall|i: int|
                0 <= i < body_count ==> {
                    let entry = #[trigger] new_path[old_path.len() - body_count + i];
                    &&& entry.x == predictor.objects.position_x@[i]
                    &&& entry.y == predictor.objects.position_y@[i]
                }
        }),
{
}

/// A step against the predictor's direction drops the newest `body_count`
/// positions from the back (as many as there are) and puts in front, in body
/// order, the tail snapshot's position `(position_x[i], position_y[i])` of each
/// body `i < body_count`.
pub proof fn lemma_advance_against_prepends_tail_positions<T>(
    predictor: Predictor<T>,
    dt_positive: bool,
    body_count: nat,
)
    requires
        !predictor.moves_along(dt_positive),
    ensures
        ({
            let old_path = predictor.path@;
            let new_path = predictor.advanced_path(dt_positive, body_count);
            &&& body_count <= old_path.len() ==> new_path.len() == old_path.len()
            &&& body_count > old_path.len() ==> new_path.len() == body_count
            &&& forall|i: int|
                0 <= i < body_count ==> {
                    let entry = #[trigger] new_path[i];
                    &&& entry.x == predictor.objects_terminal.position_x@[i]
                    &&& entry.y == predictor.objects_terminal.position_y@[i]
                }
            &&& forall|j: int|
                0 <= j < old_path.len() - body_count ==> #[trigger] new_path[body_count + j]
                    == old_path[j]
        }),
{
}

/// Recording a step appends, in body order, the head snapshot's position
/// `(position_x[i], position_y[i])` of each body `i < body_count` after the
/// positions already on the path.
pub proof fn lemma_record_appends_head_positions<T>(
    path: Seq<Vector2<T>>,
    objects: Objects<T>,
    body_count: nat,
)
    ensures
        ({
            let new_path = path + frame(objects, body_count);
            &&& new_path.len() == path.len() + body_count
            &&& forall|j: int| 0 <= j < path.len() ==> #[trigger] new_path[j] == path[j]
            &&& forall|i: int|
                0 <= i < body_count ==> {
                    let entry = #[trigger] new_path[path.len() + i];
                    &&& entry.x == objects.position_x@[i]
                    &&& entry.y == objects.position_y@[i]
                }
        }),
{
}

} // verus!
