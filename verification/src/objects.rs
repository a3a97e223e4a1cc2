use vstd::prelude::*;

verus! {

/// A pair of planar components.
#[derive(Clone, Copy, Debug)]
pub struct Vector2<T> {
    pub x: T,
    pub y: T,
}

/// One body of the system, as a single record.
#[derive(Clone, Copy, Debug)]
pub struct Object<T> {
    pub position: Vector2<T>,
    pub velocity: Vector2<T>,
    pub mass: T,
}

/// The bodies of the system, stored column by column (structure of arrays):
/// body `i` is made of the `i`-th entry of every column.
#[derive(Clone, Debug)]
pub struct Objects<T> {
    pub position_x: Vec<T>,
    pub position_y: Vec<T>,
    pub velocity_x: Vec<T>,
    pub velocity_y: Vec<T>,
    pub mass: Vec<T>,
}

impl<T> Objects<T> {
    /// Every column holds one entry per body.
    pub open spec fn wf(&self) -> bool {
        &&& self.position_x@.len() == self.mass@.len()
        &&& self.position_y@.len() == self.mass@.len()
        &&& self.velocity_x@.len() == self.mass@.len()
        &&& self.velocity_y@.len() == self.mass@.len()
    }

    /// Body `i` read across the columns.
    pub open spec fn object(&self, i: int) -> Object<T> {
        Object {
            position: Vector2 { x: self.position_x@[i], y: self.position_y@[i] },
            velocity: Vector2 { x: self.velocity_x@[i], y: self.velocity_y@[i] },
            mass: self.mass@[i],
        }
    }
}

impl<T> View for Objects<T> {
    type V = Seq<Object<T>>;

    open spec fn view(&self) -> Seq<Object<T>> {
        Seq::new(self.mass@.len(), |i: int| self.object(i))
    }
}

impl<T> Default for Objects<T> {
    /// A system without bodies.
    fn default() -> (objects: Objects<T>)
        ensures
            objects.wf(),
            objects@.len() == 0,
    {
        Objects {
            position_x: Vec::new(),
            position_y: Vec::new(),
            velocity_x: Vec::new(),
            velocity_y: Vec::new(),
            mass: Vec::new(),
        }
    }
}

/// The record of a body whose every quantity is `value`.
pub open spec fn uniform_object<T>(value: T) -> Object<T> {
    Object {
        position: Vector2 { x: value, y: value },
        velocity: Vector2 { x: value, y: value },
        mass: value,
    }
}

impl<T: Copy> Objects<T> {
    /// `number_of_initial_bodies` bodies whose every quantity is `value`.
    pub fn new(number_of_initial_bodies: usize, value: T) -> (objects: Objects<T>)
        ensures
            objects.wf(),
            objects@ == Seq::new(number_of_initial_bodies as nat, |i: int| uniform_object(value)),
    {
        let mut objects = Objects {
            position_x: Vec::new(),
            position_y: Vec::new(),
            velocity_x: Vec::new(),
            velocity_y: Vec::new(),
            mass: Vec::new(),
        };
        for k in 0..number_of_initial_bodies
            invariant
                objects.wf(),
                objects.mass@.len() == k,
                forall|i: int| 0 <= i < k ==> #[trigger] objects.object(i) == uniform_object(value),
        {
            let ghost prev = objects;
            objects.position_x.push(value);
            objects.position_y.push(value);
            objects.velocity_x.push(value);
            objects.velocity_y.push(value);
            objects.mass.push(value);
            assert forall|i: int| 0 <= i < k + 1 implies #[trigger] objects.object(i)
                == uniform_object(value) by {
                if i < k {
                    assert(prev.object(i) == uniform_object(value));
                }
            }
        }
        assert(objects@ =~= Seq::new(number_of_initial_bodies as nat, |i: int| uniform_object(value)));
        objects
    }

    /// The number of bodies.
    pub fn len(&self) -> (n: usize)
        ensures
            n == self@.len(),
    {
        self.mass.len()
    }

    /// Appends a body at the end; the bodies already there keep their index.
    pub fn insert_object(&mut self, position: Vector2<T>, velocity: Vector2<T>, mass: T)
        requires
            old(self).wf(),
        ensures
            final(self).wf(),
            final(self)@ == old(self)@.push(Object { position, velocity, mass }),
    {
        self.position_x.push(position.x);
        self.position_y.push(position.y);
        self.velocity_x.push(velocity.x);
        self.velocity_y.push(velocity.y);
        self.mass.push(mass);
        assert(self@ =~= old(self)@.push(Object { position, velocity, mass }));
    }

    /// Removes the body at `idx`; the bodies after it move down one index.
    pub fn remove_object(&mut self, idx: usize)
        requires
            old(self).wf(),
            idx < old(self)@.len(),
        ensures
            final(self).wf(),
            final(self)@ == old(self)@.remove(idx as int),
    {
        self.position_x.remove(idx);
        self.position_y.remove(idx);
        self.velocity_x.remove(idx);
        self.velocity_y.remove(idx);
        self.mass.remove(idx);
        assert(self@ =~= old(self)@.remove(idx as int));
    }
}

} // verus!

verus! {

/// Appending a body and then removing the body at the index it was given
/// leaves the system as it was before.
pub proof fn lemma_insert_then_remove_restores<T>(bodies: Seq<Object<T>>, body: Object<T>)
    ensures
        bodies.push(body).remove(bodies.len() as int) == bodies,
{
    assert(bodies.push(body).remove(bodies.len() as int) =~= bodies);
}

} // verus!
