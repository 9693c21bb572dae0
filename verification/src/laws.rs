//! What holds of every chain and every step, stated over the same models
//! that the contracts of the operations use.
use crate::mass::{laplacian, Mass};
use crate::scalar::{equal, number, one_half, product, squared, sum, Scalar};
use crate::system::{anchored, resized, settled, stepped};
use vstd::prelude::*;

verus! {

/// The two ends of the string never move. After any step of a chain that
/// has masses, the acceleration of the first mass is computed with zero on
/// its left and that of the last mass with zero on its right; a single
/// mass has zero on both sides, so that its acceleration is
/// `0 - 2 * pos + 0`.
pub proof fn ends_stay_fixed<T: Scalar>(s: Seq<Mass<T>>, t: T, delta: T)
    requires
        s.len() >= 1,
    ensures
        ({
            let after = stepped(s, t, delta);
            let last = s.len() - 1;
            &&& after.len() == s.len()
            &&& after[0].accel == laplacian(
                number(0),
                after[0].pos,
                if s.len() == 1 {
                    number(0)
                } else {
                    after[1].pos
                },
            )
            &&& after[last].accel == laplacian(
                if s.len() == 1 {
                    number(0)
                } else {
                    after[last - 1].pos
                },
                after[last].pos,
                number(0),
            )
        }),
{
}

/// A step leaves the chain settled: whatever the chain was and whatever
/// the clock says, every acceleration after the step is the one that the
/// positions after the step imply. No mass sees a position from before the
/// step, its own or a neighbour's.
pub proof fn step_settles<T: Scalar>(s: Seq<Mass<T>>, t: T, delta: T)
    ensures
        settled(stepped(s, t, delta)),
{
}

/// A step that starts with the clock at zero moves nothing: every mass
/// keeps its position, and its history becomes that position.
pub proof fn bootstrap_moves_nothing<T: Scalar>(s: Seq<Mass<T>>, t: T, delta: T)
    requires
        equal(t, number(0)),
    ensures
        stepped(s, t, delta).len() == s.len(),
        forall|i: int|
            #![trigger stepped(s, t, delta)[i]]
            0 <= i < s.len() ==> stepped(s, t, delta)[i].pos == s[i].pos && stepped(
                s,
                t,
                delta,
            )[i].past_pos == s[i].pos,
{
}

/// The first two steps of a freshly anchored chain.
///
/// The first step starts with the clock `t` at zero. It leaves every
/// position as `new` set it, makes it the history, and computes the
/// accelerations from those positions. The second step starts with the
/// clock at `t + delta`; where that compares equal to `delta` and not to
/// zero, the step keeps the history and takes every new position from the
/// half-step formula, on the initial position and the acceleration that
/// the first step computed.
pub proof fn first_two_steps<T: Scalar>(m: int, size: nat, displacement: T, t: T, delta: T)
    requires
        0 <= m < size,
        equal(t, number(0)),
        equal(sum(t, delta), delta),
        !equal(sum(t, delta), number(0)),
    ensures
        ({
            let start = anchored(m, size, displacement);
            let first = stepped(start, t, delta);
            let second = stepped(first, sum(t, delta), delta);
            &&& first.len() == size
            &&& second.len() == size
            &&& forall|i: int|
                #![trigger first[i]]
                0 <= i < size ==> {
                    &&& first[i].pos == start[i].pos
                    &&& first[i].past_pos == start[i].pos
                    &&& first[i].accel == laplacian(
                        if i == 0 {
                            number(0)
                        } else {
                            start[i - 1].pos
                        },
                        start[i].pos,
                        if i == size - 1 {
                            number(0)
                        } else {
                            start[i + 1].pos
                        },
                    )
                }
            &&& forall|i: int|
                #![trigger second[i]]
                0 <= i < size ==> {
                    &&& second[i].past_pos == start[i].pos
                    &&& second[i].pos == sum(
                        start[i].pos,
                        product(product(one_half(), first[i].accel), squared(delta)),
                    )
                }
        }),
{
}

/// Resizing twice to the same size does what resizing once does, and
/// resizing a chain to the size it has changes nothing.
pub proof fn resize_is_idempotent<T: Scalar>(s: Seq<Mass<T>>, k: nat)
    ensures
        resized(resized(s, k), k) == resized(s, k),
        resized(s, s.len()) == s,
{
}

/// Resizing to `m` and back to the size the chain had keeps the masses that
/// were never removed and nothing else: where `m` is smaller, the masses
/// from `m` on come back at zero, at rest; where `m` is not smaller, the
/// chain is as it was.
pub proof fn resize_there_and_back<T: Scalar>(s: Seq<Mass<T>>, m: nat)
    ensures
        resized(resized(s, m), s.len()).len() == s.len(),
        forall|i: int|
            0 <= i < s.len() ==> #[trigger] resized(resized(s, m), s.len())[i] == (if i < m {
                s[i]
            } else {
                Mass::at_rest(number(0))
            }),
        m >= s.len() ==> resized(resized(s, m), s.len()) == s,
{
}

} // verus!
