//! The chain of masses between two fixed ends: its construction and
//! resizing, one time step of it, and the initial conditions.
use crate::error::SysError;
use crate::mass::{laplacian, Mass};
use crate::scalar::{
    circle_ratio, count, difference, magnitude, number, one_half, product, quotient,
    single_valued, sine, square, squared, sum, Scalar,
};
use vstd::prelude::*;

verus! {

/// The interior nodes of a string whose two ends are pinned at zero.
/// The ends themselves are not stored.
#[derive(Clone, Debug)]
pub struct Sys<T> {
    masses: Vec<Mass<T>>,
}

/// The chain that `new` builds: `size` masses at zero, at rest, with the
/// position of mass `m` alone set to `displacement`.
pub open spec fn anchored<T: Scalar>(m: int, size: nat, displacement: T) -> Seq<Mass<T>> {
    Seq::new(
        size,
        |i: int|
            Mass {
                pos: if i == m {
                    displacement
                } else {
                    number(0)
                },
                past_pos: number(0),
                accel: number(0),
            },
    )
}

/// `s` cut down or filled up to `target` masses: the first `target` masses
/// of `s` where it is long enough, else `s` followed by masses at zero, at
/// rest.
pub open spec fn resized<T: Scalar>(s: Seq<Mass<T>>, target: nat) -> Seq<Mass<T>> {
    Seq::new(
        target,
        |i: int|
            if i < s.len() {
                s[i]
            } else {
                Mass::at_rest(number(0))
            },
    )
}

/// The displacement that the chain `s` shows at index `j`: the position
/// of mass `j`, or zero where `j` lies beyond either end.
pub open spec fn displacement_at<T: Scalar>(s: Seq<Mass<T>>, j: int) -> T {
    if 0 <= j < s.len() {
        s[j].pos
    } else {
        number(0)
    }
}

/// Every acceleration in `s` is the one that the positions in `s` imply:
/// the Laplacian of the displacements of the mass and of what lies to its
/// left and to its right.
pub open spec fn settled<T: Scalar>(s: Seq<Mass<T>>) -> bool {
    forall|i: int|
        0 <= i < s.len() ==> (#[trigger] s[i]).accel == laplacian(
            displacement_at(s, i - 1),
            s[i].pos,
            displacement_at(s, i + 1),
        )
}

/// The position that the chain `s` shows at index `j` once every mass has
/// made the position update of a step: that of mass `j`, or zero where `j`
/// lies beyond either end.
pub open spec fn moved_position<T: Scalar>(s: Seq<Mass<T>>, j: int, t: T, delta: T) -> T {
    if 0 <= j < s.len() {
        s[j].moved(t, delta).pos
    } else {
        number(0)
    }
}

/// The chain `s` after one time step that starts at elapsed time `t` and
/// has size `delta`: every mass has made its position update, and every
/// acceleration is the Laplacian of the updated positions of the mass and
/// its two neighbours.
pub open spec fn stepped<T: Scalar>(s: Seq<Mass<T>>, t: T, delta: T) -> Seq<Mass<T>> {
    Seq::new(
        s.len(),
        |i: int|
            Mass {
                pos: s[i].moved(t, delta).pos,
                past_pos: s[i].moved(t, delta).past_pos,
                accel: laplacian(
                    moved_position(s, i - 1, t, delta),
                    moved_position(s, i, t, delta),
                    moved_position(s, i + 1, t, delta),
                ),
            },
    )
}

/// Where mass `i` of `n` sits along a string of length one:
/// `(i + 1) / (n + 1)`.
pub open spec fn abscissa<T: Scalar>(i: int, n: nat) -> T {
    quotient(count((i + 1) as usize), sum(count(n as usize), number(1)))
}

/// The position of mass `i` of `n` on the inverted parabola of peak
/// `height`: `height * (1 - c^2 / h^2)`, with `h = spacing / 2`,
/// `spacing = n + n mod 2`, and `c = (i + 1) - base - h`, where `base` is
/// one half for even `n` and zero for odd `n`.
pub open spec fn parabola_position<T: Scalar>(i: int, n: nat, height: T) -> T {
    let base = if n % 2 == 0 {
        one_half::<T>()
    } else {
        number::<T>(0)
    };
    let spacing = sum(count::<T>(n as usize), count::<T>((n % 2) as usize));
    let h = quotient(spacing, number(2));
    let c = difference(difference(count((i + 1) as usize), base), h);
    product(height, difference(number(1), quotient(squared(c), squared(h))))
}

/// The position of mass `i` of `n` in the normal mode `mode` of amplitude
/// `height`: `height * sin(x * pi * mode)` at the abscissa `x` of the mass.
pub open spec fn harmonic_position<T: Scalar>(i: int, n: nat, height: T, mode: i32) -> T {
    product(height, sine(product(product(abscissa(i, n), circle_ratio()), number(mode))))
}

/// The position of mass `i` of `n` on the triangle of peak `height`:
/// `height * (1 - 2 |x - 1/2|)` at the abscissa `x` of the mass.
pub open spec fn pluck_position<T: Scalar>(i: int, n: nat, height: T) -> T {
    product(
        height,
        difference(
            number(1),
            product(number(2), magnitude(difference(abscissa(i, n), one_half()))),
        ),
    )
}

impl<T> View for Sys<T> {
    type V = Seq<Mass<T>>;

    closed spec fn view(&self) -> Seq<Mass<T>> {
        self.masses@
    }
}

impl<T: Scalar> Sys<T> {
    /// A chain of `size` masses at zero, with mass `m` displaced by
    /// `displacement`. Refused when the chain has no mass `m`.
    pub fn new(m: usize, size: usize, displacement: T) -> (r: Result<Sys<T>, SysError>)
        ensures
            r is Ok <==> m < size,
            r matches Ok(sys) ==> sys@.len() == size && sys@[m as int].pos == displacement,
            r matches Ok(sys) ==> single_valued::<T>() ==> sys@ == anchored(
                m as int,
                size as nat,
                displacement,
            ),
            r matches Err(e) ==> e == (SysError::IndexOutOfRange { index: m, len: size }),
    {
        if m >= size {
            return Err(SysError::IndexOutOfRange { index: m, len: size });
        }
        let mut masses: Vec<Mass<T>> = Vec::new();
        let mut i: usize = 0;
        while i < size
            invariant
                i <= size,
                masses@.len() == i,
                single_valued::<T>() ==> forall|j: int|
                    0 <= j < i ==> masses@[j] == Mass::<T>::at_rest(number(0)),
            decreases size - i,
        {
            masses.push(Mass::new(T::from_i32(0)));
            i += 1;
        }
        masses[m].pos = displacement;
        let sys = Sys { masses };
        Ok(sys)
    }

    /// The chain that holds exactly `masses`, in their order and state.
    pub fn from_masses(masses: Vec<Mass<T>>) -> (sys: Sys<T>)
        ensures
            sys@ == masses@,
    {
        Sys { masses }
    }

    /// The masses, in their order.
    pub fn masses(&self) -> (all: &Vec<Mass<T>>)
        ensures
            all@ == self@,
    {
        &self.masses
    }

    /// Appends a mass at `displacement`, at rest.
    pub fn push(&mut self, displacement: T)
        ensures
            final(self)@.len() == old(self)@.len() + 1,
            final(self)@.drop_last() == old(self)@,
            single_valued::<T>() ==> final(self)@ == old(self)@.push(Mass::at_rest(displacement)),
    {
        self.masses.push(Mass::new(displacement));
    }

    /// Removes the last mass; an empty chain stays empty.
    pub fn pop(&mut self)
        ensures
            final(self)@ == if old(self)@.len() > 0 {
                old(self)@.drop_last()
            } else {
                old(self)@
            },
    {
        self.masses.pop();
    }

    /// Brings the chain to `target` masses, one mass at a time: masses at
    /// zero, at rest, are appended, or masses are removed from the end.
    /// The masses that stay keep their state.
    pub fn resize(&mut self, target: usize)
        ensures
            final(self)@.len() == target,
            forall|i: int|
                0 <= i < target && i < old(self)@.len() ==> final(self)@[i] == old(self)@[i],
            single_valued::<T>() ==> final(self)@ == resized(old(self)@, target as nat),
    {
        while self.masses.len() < target
            invariant
                old(self).masses@.len() <= self.masses@.len(),
                forall|i: int|
                    0 <= i < old(self).masses@.len() ==> self.masses@[i] == old(self).masses@[i],
                single_valued::<T>() ==> self.masses@ == resized(
                    old(self).masses@,
                    self.masses@.len(),
                ),
            decreases target - self.masses.len(),
        {
            self.push(T::from_i32(0));
        }
        while self.masses.len() > target
            invariant
                self.masses@.len() >= target,
                forall|i: int|
                    0 <= i < self.masses@.len() && i < old(self).masses@.len() ==> self.masses@[i]
                        == old(self).masses@[i],
                single_valued::<T>() ==> self.masses@ == resized(
                    old(self).masses@,
                    self.masses@.len(),
                ),
            decreases self.masses.len(),
        {
            self.pop();
        }
    }

    /// One time step of the whole chain, in two phases: first every mass
    /// makes its position update, then, when all have moved, every
    /// acceleration is recomputed from the new positions of the mass and
    /// its neighbours, with zero for the neighbour that a mass at either
    /// end lacks. Afterwards the clock is advanced by `delta`.
    ///
    /// An empty chain stays empty; its clock advances all the same.
    pub fn update_system(&mut self, time_step: &mut T, delta: T)
        ensures
            final(self)@.len() == old(self)@.len(),
            single_valued::<T>() ==> final(self)@ == stepped(old(self)@, *old(time_step), delta),
            single_valued::<T>() ==> *final(time_step) == sum(*old(time_step), delta),
    {
        let n = self.masses.len();
        let t = *time_step;
        let mut i: usize = 0;
        while i < n
            invariant
                i <= n,
                n == self.masses@.len(),
                n == old(self).masses@.len(),
                single_valued::<T>() ==> forall|j: int|
                    0 <= j < i ==> #[trigger] self.masses@[j] == old(self).masses@[j].moved(
                        t,
                        delta,
                    ),
                forall|j: int| i <= j < n ==> self.masses@[j] == old(self).masses@[j],
            decreases n - i,
        {
            self.masses[i].update_position(t, delta);
            i += 1;
        }
        let ghost moved = self.masses@;
        let mut i: usize = 0;
        while i < n
            invariant
                i <= n,
                n == self.masses@.len(),
                n == moved.len(),
                forall|j: int|
                    #![trigger self.masses@[j]]
                    0 <= j < n ==> self.masses@[j].pos == moved[j].pos && self.masses@[j].past_pos
                        == moved[j].past_pos,
                single_valued::<T>() ==> forall|j: int|
                    #![trigger self.masses@[j]]
                    0 <= j < i ==> self.masses@[j].accel == laplacian(
                        if j == 0 {
                            number(0)
                        } else {
                            moved[j - 1].pos
                        },
                        moved[j].pos,
                        if j == n - 1 {
                            number(0)
                        } else {
                            moved[j + 1].pos
                        },
                    ),
            decreases n - i,
        {
            if i == 0 {
                if n > 1 {
                    let r = self.masses[i + 1].pos;
                    self.masses[i].update_acceleration(T::from_i32(0), r);
                } else {
                    self.masses[i].update_acceleration(T::from_i32(0), T::from_i32(0));
                }
            } else if i == n - 1 {
                let l = self.masses[i - 1].pos;
                self.masses[i].update_acceleration(l, T::from_i32(0));
            } else {
                let r = self.masses[i + 1].pos;
                let l = self.masses[i - 1].pos;
                self.masses[i].update_acceleration(l, r);
            }
            i += 1;
        }
        *time_step = t.plus(delta);
    }

    /// The position of mass `mass`, or the refusal where there is none.
    pub fn get_mass_pos(&self, mass: usize) -> (r: Result<T, SysError>)
        ensures
            r is Ok <==> mass < self@.len(),
            r matches Ok(p) ==> p == self@[mass as int].pos,
            r matches Err(e) ==> e == (SysError::IndexOutOfRange {
                index: mass,
                len: self@.len() as usize,
            }),
    {
        if mass < self.masses.len() {
            Ok(self.masses[mass].pos)
        } else {
            Err(SysError::IndexOutOfRange { index: mass, len: self.masses.len() })
        }
    }

    /// The number of masses.
    pub fn len(&self) -> (n: usize)
        ensures
            n == self@.len(),
    {
        self.masses.len()
    }

    /// Lays the chain out on an inverted parabola that peaks at `height`
    /// in the middle. Every mass is replaced by one at rest; what the
    /// chain did before is forgotten.
    pub fn parabola(&mut self, height: T)
        ensures
            final(self)@.len() == old(self)@.len(),
            forall|i: int|
                #![trigger final(self)@[i]]
                0 <= i < final(self)@.len() ==> final(self)@[i].past_pos == final(self)@[i].pos,
            single_valued::<T>() ==> final(self)@ == Seq::new(
                old(self)@.len(),
                |i: int| Mass::at_rest(parabola_position(i, old(self)@.len(), height)),
            ),
    {
        let n = self.masses.len();
        let base = if n % 2 == 0 {
            T::half()
        } else {
            T::from_i32(0)
        };
        let spacing = T::from_usize(n).plus(T::from_usize(n % 2));
        let h = spacing.over(T::from_i32(2));
        let mut i: usize = 0;
        while i < n
            invariant
                i <= n,
                n == self.masses@.len(),
                forall|j: int|
                    0 <= j < i ==> (#[trigger] self.masses@[j]).past_pos == self.masses@[j].pos,
                single_valued::<T>() ==> base == if n % 2 == 0 {
                    one_half::<T>()
                } else {
                    number::<T>(0)
                },
                single_valued::<T>() ==> h == quotient(
                    sum(count::<T>(n), count::<T>((n % 2) as usize)),
                    number(2),
                ),
                single_valued::<T>() ==> forall|j: int|
                    0 <= j < i ==> #[trigger] self.masses@[j] == Mass::at_rest(
                        parabola_position(j, n as nat, height),
                    ),
            decreases n - i,
        {
            let c = T::from_usize(i + 1).minus(base).minus(h);
            let pos = height.times(T::from_i32(1).minus(square(c).over(square(h))));
            self.masses[i] = Mass::new(pos);
            i += 1;
        }
    }

    /// Lays the chain out on the normal mode `state` with amplitude
    /// `height`. Every mass is replaced by one at rest; what the chain did
    /// before is forgotten. No mode is refused.
    pub fn harmonic_state(&mut self, height: T, state: i32)
        ensures
            final(self)@.len() == old(self)@.len(),
            forall|i: int|
                #![trigger final(self)@[i]]
                0 <= i < final(self)@.len() ==> final(self)@[i].past_pos == final(self)@[i].pos,
            single_valued::<T>() ==> final(self)@ == Seq::new(
                old(self)@.len(),
                |i: int| Mass::at_rest(harmonic_position(i, old(self)@.len(), height, state)),
            ),
    {
        let n = self.masses.len();
        let spacing = T::from_usize(n).plus(T::from_i32(1));
        let mut i: usize = 0;
        while i < n
            invariant
                i <= n,
                n == self.masses@.len(),
                forall|j: int|
                    0 <= j < i ==> (#[trigger] self.masses@[j]).past_pos == self.masses@[j].pos,
                single_valued::<T>() ==> spacing == sum(count::<T>(n), number(1)),
                single_valued::<T>() ==> forall|j: int|
                    0 <= j < i ==> #[trigger] self.masses@[j] == Mass::at_rest(
                        harmonic_position(j, n as nat, height, state),
                    ),
            decreases n - i,
        {
            let x = T::from_usize(i + 1).over(spacing);
            let pos = height.times(x.times(T::pi()).times(T::from_i32(state)).sin());
            self.masses[i] = Mass::new(pos);
            i += 1;
        }
    }

    /// Lays the chain out on a triangle that peaks at `height` in the
    /// middle. Every mass is replaced by one at rest; what the chain did
    /// before is forgotten.
    pub fn pluck(&mut self, height: T)
        ensures
            final(self)@.len() == old(self)@.len(),
            forall|i: int|
                #![trigger final(self)@[i]]
                0 <= i < final(self)@.len() ==> final(self)@[i].past_pos == final(self)@[i].pos,
            single_valued::<T>() ==> final(self)@ == Seq::new(
                old(self)@.len(),
                |i: int| Mass::at_rest(pluck_position(i, old(self)@.len(), height)),
            ),
    {
        let n = self.masses.len();
        let spacing = T::from_usize(n).plus(T::from_i32(1));
        let mut i: usize = 0;
        while i < n
            invariant
                i <= n,
                n == self.masses@.len(),
                forall|j: int|
                    0 <= j < i ==> (#[trigger] self.masses@[j]).past_pos == self.masses@[j].pos,
                single_valued::<T>() ==> spacing == sum(count::<T>(n), number(1)),
                single_valued::<T>() ==> forall|j: int|
                    0 <= j < i ==> #[trigger] self.masses@[j] == Mass::at_rest(
                        pluck_position(j, n as nat, height),
                    ),
            decreases n - i,
        {
            let x = T::from_usize(i + 1).over(spacing);
            let pos = height.times(
                T::from_i32(1).minus(T::from_i32(2).times(x.minus(T::half()).abs())),
            );
            self.masses[i] = Mass::new(pos);
            i += 1;
        }
    }

    /// Overrides the position of mass `i`; its history and acceleration
    /// stay. Refused, with nothing changed, where there is no mass `i`.
    pub fn alter(&mut self, i: usize, displacement: T) -> (r: Result<(), SysError>)
        ensures
            r is Ok <==> i < old(self)@.len(),
            r is Ok ==> final(self)@ == old(self)@.update(
                i as int,
                Mass {
                    pos: displacement,
                    past_pos: old(self)@[i as int].past_pos,
                    accel: old(self)@[i as int].accel,
                },
            ),
            r matches Err(e) ==> final(self)@ == old(self)@ && e == (SysError::IndexOutOfRange {
                index: i,
                len: old(self)@.len() as usize,
            }),
    {
        if i < self.masses.len() {
            self.masses[i].pos = displacement;
            Ok(())
        } else {
            Err(SysError::IndexOutOfRange { index: i, len: self.masses.len() })
        }
    }
}

impl<T: Scalar> Default for Sys<T> {
    /// A single mass displaced by one, at rest.
    fn default() -> (sys: Self)
        ensures
            sys@.len() == 1,
            single_valued::<T>() ==> sys@[0] == Mass::at_rest(number::<T>(1)),
    {
        let mut masses: Vec<Mass<T>> = Vec::new();
        masses.push(Mass::new(T::from_i32(1)));
        Sys { masses }
    }
}

} // verus!
