//! One node of the string: its kinematic triple and the two updates that
//! make up its share of a time step.
use crate::scalar::{
    difference, equal, number, one_half, product, single_valued, square, squared, sum, Scalar,
};
use vstd::prelude::*;

verus! {

/// Kinematic state of one point mass.
#[derive(Clone, Copy, Debug)]
pub struct Mass<T> {
    /// Current displacement.
    pub pos: T,
    /// Displacement one step earlier.
    pub past_pos: T,
    /// Acceleration implied by the current displacements.
    pub accel: T,
}

/// The discrete Laplacian with unit coupling: `l - 2 p + r`, for a mass at
/// `p` whose neighbours are at `l` and `r`.
pub open spec fn laplacian<T: Scalar>(l: T, p: T, r: T) -> T {
    sum(difference(l, product(number(2), p)), r)
}

impl<T: Scalar> Mass<T> {
    /// A mass at displacement `p` with no history of motion: its previous
    /// displacement is `p` too and its acceleration is zero.
    pub open spec fn at_rest(p: T) -> Mass<T> {
        Mass { pos: p, past_pos: p, accel: number(0) }
    }

    /// The position after the half step that follows the bootstrap:
    /// `past_pos + 0.5 * accel * delta^2`.
    pub open spec fn half_stepped(self, delta: T) -> T {
        sum(self.past_pos, product(product(one_half(), self.accel), squared(delta)))
    }

    /// The position after a step of the two-level recurrence:
    /// `2 * pos - past_pos + accel * delta^2`.
    pub open spec fn leapt(self, delta: T) -> T {
        sum(
            difference(product(number(2), self.pos), self.past_pos),
            product(self.accel, squared(delta)),
        )
    }

    /// This mass after the position update of a step that starts at
    /// elapsed time `t` and has size `delta`.
    ///
    /// - Where `t` compares equal to zero, nothing moves and the position
    ///   becomes the history.
    /// - Else, where `t` compares equal to `delta`, the position is the
    ///   half step from the history, which stays.
    /// - Else the position follows the recurrence and the position before
    ///   it becomes the history.
    ///
    /// The acceleration is the same in all three.
    pub open spec fn moved(self, t: T, delta: T) -> Mass<T> {
        if equal(t, number(0)) {
            Mass { pos: self.pos, past_pos: self.pos, accel: self.accel }
        } else if equal(t, delta) {
            Mass { pos: self.half_stepped(delta), past_pos: self.past_pos, accel: self.accel }
        } else {
            Mass { pos: self.leapt(delta), past_pos: self.pos, accel: self.accel }
        }
    }

    /// A mass at displacement `p`, at rest.
    pub fn new(p: T) -> (m: Mass<T>)
        ensures
            m.pos == p,
            m.past_pos == p,
            single_valued::<T>() ==> m == Self::at_rest(p),
    {
        Mass { pos: p, past_pos: p, accel: T::from_i32(0) }
    }

    /// Moves the mass by one time step that starts at elapsed time `t`.
    /// The two comparisons of `t`, with zero and with `delta`, are exact.
    pub fn update_position(&mut self, t: T, delta: T)
        ensures
            final(self).accel == old(self).accel,
            single_valued::<T>() ==> *final(self) == old(self).moved(t, delta),
    {
        if t.same(T::from_i32(0)) {
            self.past_pos = self.pos;
        } else if t.same(delta) {
            self.pos = self.past_pos.plus(T::half().times(self.accel).times(square(delta)));
        } else {
            let cur = self.pos;
            self.pos = T::from_i32(2).times(cur).minus(self.past_pos).plus(
                self.accel.times(square(delta)),
            );
            self.past_pos = cur;
        }
    }

    /// Recomputes the acceleration from the displacements of the two
    /// neighbours; position and history stay.
    pub fn update_acceleration(&mut self, l_pos: T, r_pos: T)
        ensures
            final(self).pos == old(self).pos,
            final(self).past_pos == old(self).past_pos,
            single_valued::<T>() ==> final(self).accel == laplacian(l_pos, old(self).pos, r_pos),
    {
        self.accel = l_pos.minus(T::from_i32(2).times(self.pos)).plus(r_pos);
    }
}

impl<T: Scalar> Default for Mass<T> {
    /// A mass at zero, at rest.
    fn default() -> (m: Self)
        ensures
            single_valued::<T>() ==> m == Mass::at_rest(number::<T>(0)),
    {
        Mass::new(T::from_i32(0))
    }
}

} // verus!
