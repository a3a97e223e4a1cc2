use vstd::prelude::*;

verus! {

/// Per-body acceleration, one column per axis.
#[derive(Debug)]
pub struct Acceleration<T> {
    pub x: Vec<T>,
    pub y: Vec<T>,
}

impl<T> Default for Acceleration<T> {
    /// Empty columns.
    fn default() -> (acc: Acceleration<T>)
        ensures
            acc.x@.len() == 0,
            acc.y@.len() == 0,
    {
        Acceleration { x: Vec::new(), y: Vec::new() }
    }
}

impl<T: Copy> Acceleration<T> {
    /// Columns of `n` entries, all equal to `value`.
    pub fn new(n: usize, value: T) -> (acc: Acceleration<T>)
        ensures
            acc.x@ == Seq::new(n as nat, |i: int| value),
            acc.y@ == Seq::new(n as nat, |i: int| value),
    {
        let mut acc = Acceleration { x: Vec::new(), y: Vec::new() };
        for k in 0..n
            invariant
                acc.x@ == Seq::new(k as nat, |i: int| value),
                acc.y@ == Seq::new(k as nat, |i: int| value),
        {
            acc.x.push(value);
            acc.y.push(value);
            assert(acc.x@ =~= Seq::new((k + 1) as nat, |i: int| value));
            assert(acc.y@ =~= Seq::new((k + 1) as nat, |i: int| value));
        }
        acc
    }

    /// Sets every entry of both columns to `value`, keeping their lengths.
    pub fn fill(&mut self, value: T)
        ensures
            final(self).x@ == Seq::new(old(self).x@.len(), |i: int| value),
            final(self).y@ == Seq::new(old(self).y@.len(), |i: int| value),
    {
        let nx = self.x.len();
        for k in 0..nx
            invariant
                nx == old(self).x@.len(),
                self.y@ == old(self).y@,
                self.x@.len() == nx,
                forall|i: int| 0 <= i < k ==> self.x@[i] == value,
        {
            self.x.set(k, value);
        }
        let ny = self.y.len();
        for k in 0..ny
            invariant
                ny == old(self).y@.len(),
                self.x@ == Seq::new(nx as nat, |i: int| value),
                self.y@.len() == ny,
                forall|i: int| 0 <= i < k ==> self.y@[i] == value,
        {
            self.y.set(k, value);
        }
        assert(self.x@ =~= Seq::new(nx as nat, |i: int| value));
        assert(self.y@ =~= Seq::new(ny as nat, |i: int| value));
    }

    /// Replaces both columns by `new_len` entries equal to `value`.
    pub fn resize(&mut self, new_len: usize, value: T)
        ensures
            final(self).x@ == Seq::new(new_len as nat, |i: int| value),
            final(self).y@ == Seq::new(new_len as nat, |i: int| value),
    {
        let fresh = Acceleration::new(new_len, value);
        self.x = fresh.x;
        self.y = fresh.y;
    }
}

} // verus!
