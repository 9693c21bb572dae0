//! The numbers of the simulation.
//!
//! The engine is written once for every number type that offers the
//! arithmetic below, and nothing is assumed of that arithmetic. Where it is
//! a function, so that the same operands always give the same result, each
//! operation has a mathematical counterpart here (`sum` for `plus`,
//! `product` for `times`, and so on), and the contracts of the engine are
//! formulas over those counterparts. They fix which operations are applied,
//! to what, and in which order; what an operation yields is the business of
//! the number type.
use vstd::prelude::*;

verus! {

/// What the engine needs of a number type.
///
/// The methods carry no contract: an implementation is free in what its
/// operations yield, and nothing is believed of it. An implementation
/// whose methods each ensure one result for given operands makes
/// `single_valued` provable, and with it every formula that the engine
/// promises.
pub trait Scalar: Copy {
    /// The number nearest to the count `n`.
    fn from_usize(n: usize) -> Self;

    /// The number nearest to the integer `n`.
    fn from_i32(n: i32) -> Self;

    /// One half.
    fn half() -> Self;

    /// The ratio of a circle's circumference to its diameter.
    fn pi() -> Self;

    /// `self + rhs`.
    fn plus(self, rhs: Self) -> Self;

    /// `self - rhs`.
    fn minus(self, rhs: Self) -> Self;

    /// `self * rhs`.
    fn times(self, rhs: Self) -> Self;

    /// `self / rhs`.
    fn over(self, rhs: Self) -> Self;

    /// The absolute value.
    fn abs(self) -> Self;

    /// The largest whole number that is not above `self`.
    fn floor(self) -> Self;

    /// The sine, of an angle in radians.
    fn sin(self) -> Self;

    /// Whether the two numbers compare equal.
    fn same(self, rhs: Self) -> bool;
}

/// What `T::from_usize(n)` yields.
pub open spec fn count<T: Scalar>(n: usize) -> T {
    choose|r: T| call_ensures(T::from_usize, (n,), r)
}

/// What `T::from_i32(n)` yields.
pub open spec fn number<T: Scalar>(n: i32) -> T {
    choose|r: T| call_ensures(T::from_i32, (n,), r)
}

/// What `T::half()` yields.
pub open spec fn one_half<T: Scalar>() -> T {
    choose|r: T| call_ensures(T::half, (), r)
}

/// What `T::pi()` yields.
pub open spec fn circle_ratio<T: Scalar>() -> T {
    choose|r: T| call_ensures(T::pi, (), r)
}

/// What `a.plus(b)` yields.
pub open spec fn sum<T: Scalar>(a: T, b: T) -> T {
    choose|r: T| call_ensures(T::plus, (a, b), r)
}

/// What `a.minus(b)` yields.
pub open spec fn difference<T: Scalar>(a: T, b: T) -> T {
    choose|r: T| call_ensures(T::minus, (a, b), r)
}

/// What `a.times(b)` yields.
pub open spec fn product<T: Scalar>(a: T, b: T) -> T {
    choose|r: T| call_ensures(T::times, (a, b), r)
}

/// What `a.over(b)` yields.
pub open spec fn quotient<T: Scalar>(a: T, b: T) -> T {
    choose|r: T| call_ensures(T::over, (a, b), r)
}

/// What `a.abs()` yields.
pub open spec fn magnitude<T: Scalar>(a: T) -> T {
    choose|r: T| call_ensures(T::abs, (a,), r)
}

/// What `a.floor()` yields.
pub open spec fn floored<T: Scalar>(a: T) -> T {
    choose|r: T| call_ensures(T::floor, (a,), r)
}

/// What `a.sin()` yields.
pub open spec fn sine<T: Scalar>(a: T) -> T {
    choose|r: T| call_ensures(T::sin, (a,), r)
}

/// What `a.same(b)` yields.
pub open spec fn equal<T: Scalar>(a: T, b: T) -> bool {
    choose|r: bool| call_ensures(T::same, (a, b), r)
}

/// `a * a`.
pub open spec fn squared<T: Scalar>(a: T) -> T {
    product(a, a)
}

/// The arithmetic of `T` is a function: no operation has two different
/// results on the same operands.
pub open spec fn single_valued<T: Scalar>() -> bool {
    &&& forall|n: usize, r: T, s: T|
        call_ensures(T::from_usize, (n,), r) && call_ensures(T::from_usize, (n,), s) ==> r == s
    &&& forall|n: i32, r: T, s: T|
        call_ensures(T::from_i32, (n,), r) && call_ensures(T::from_i32, (n,), s) ==> r == s
    &&& forall|r: T, s: T| call_ensures(T::half, (), r) && call_ensures(T::half, (), s) ==> r == s
    &&& forall|r: T, s: T| call_ensures(T::pi, (), r) && call_ensures(T::pi, (), s) ==> r == s
    &&& forall|a: T, b: T, r: T, s: T|
        call_ensures(T::plus, (a, b), r) && call_ensures(T::plus, (a, b), s) ==> r == s
    &&& forall|a: T, b: T, r: T, s: T|
        call_ensures(T::minus, (a, b), r) && call_ensures(T::minus, (a, b), s) ==> r == s
    &&& forall|a: T, b: T, r: T, s: T|
        call_ensures(T::times, (a, b), r) && call_ensures(T::times, (a, b), s) ==> r == s
    &&& forall|a: T, b: T, r: T, s: T|
        call_ensures(T::over, (a, b), r) && call_ensures(T::over, (a, b), s) ==> r == s
    &&& forall|a: T, r: T, s: T|
        call_ensures(T::abs, (a,), r) && call_ensures(T::abs, (a,), s) ==> r == s
    &&& forall|a: T, r: T, s: T|
        call_ensures(T::floor, (a,), r) && call_ensures(T::floor, (a,), s) ==> r == s
    &&& forall|a: T, r: T, s: T|
        call_ensures(T::sin, (a,), r) && call_ensures(T::sin, (a,), s) ==> r == s
    &&& forall|a: T, b: T, r: bool, s: bool|
        call_ensures(T::same, (a, b), r) && call_ensures(T::same, (a, b), s) ==> r == s
}

/// The square of `val`.
pub fn square<T: Scalar>(val: T) -> (r: T)
    ensures
        single_valued::<T>() ==> r == squared(val),
{
    val.times(val)
}

/// `val` rounded down to a multiple of `rounding_factor`: the whole number
/// of factors that fit into `val`, times the factor.
pub fn round<T: Scalar>(val: T, rounding_factor: T) -> (r: T)
    ensures
        single_valued::<T>() ==> r == product(
            floored(quotient(val, rounding_factor)),
            rounding_factor,
        ),
{
    val.over(rounding_factor).floor().times(rounding_factor)
}

} // verus!
