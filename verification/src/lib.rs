//! The uninhabited void type for use in statically impossible cases.
//!
//! `Void` is a type with no values: it holds `core::convert::Infallible`, the
//! standard uninhabited type, so no safe code can ever construct one. Its use
//! is purely in the type system: a `Result<T, Void>` is statically known to be
//! `Ok`, and a `Result<Void, E>` to be `Err`. The extension traits
//! [`ResultVoidExt`] and [`ResultVoidErrExt`] extract the possible side of
//! such results without any runtime check.

use vstd::prelude::*;

verus! {

/// The empty type for cases which can't occur.
///
/// A `Void` can only be built from a value of `core::convert::Infallible`,
/// and no such value exists, so no `Void` can ever be constructed. Its type
/// invariant is `false`: any code that claimed to build one would have to
/// prove `false`, and any code that holds one may conclude `false`.
#[derive(Copy, Debug)]
pub struct Void {
    nothing: core::convert::Infallible,
}

impl Void {
    /// No reachable code can establish this invariant, which is the point:
    /// a `Void` value cannot exist at runtime. It is public so that the
    /// operations below can export the fact in their contracts: a caller
    /// that somehow holds a `Void` may conclude the impossible.
    #[verifier::type_invariant]
    pub open spec fn uninhabited(self) -> bool {
        false
    }
}

/// A safe version of the unreachable intrinsic.
///
/// If this typechecks, anything that causes this to run is unreachable code:
/// a caller would have to hold a `Void`, which cannot exist. Verifying this
/// body is the proof: holding a `Void` yields `false`. The `ensures` clause
/// hands that contradiction on, so any postcondition may be assumed at a
/// call site — this function never returns normally.
pub fn unreachable<T>(x: Void) -> (r: T)
    ensures
        x.uninhabited(),
{
    proof {
        use_type_invariant(&x);
    }
    unreached()
}

impl Clone for Void {
    /// Never runs: its body can only be reached by already holding a `Void`.
    fn clone(&self) -> (r: Void)
        ensures
            self.uninhabited(),
            r == *self,
    {
        unreachable(*self)
    }
}

impl<T> PartialEq<T> for Void {
    /// Never runs: its body can only be reached by already holding a `Void`.
    fn eq(&self, _other: &T) -> (r: bool)
        ensures
            self.uninhabited(),
    {
        unreachable(*self)
    }
}

impl<T> PartialOrd<T> for Void {
    /// Never runs: its body can only be reached by already holding a `Void`.
    fn partial_cmp(&self, _other: &T) -> (r: Option<core::cmp::Ordering>)
        ensures
            self.uninhabited(),
    {
        unreachable(*self)
    }
}

/// Extensions to `Result<T, Void>`
pub trait ResultVoidExt<T>: Sized {
    /// What `void_unwrap` returns for a given receiver.
    spec fn unwraps_to(self, value: T) -> bool;

    /// Get the value out of a wrapper.
    fn void_unwrap(self) -> (value: T)
        ensures
            self.unwraps_to(value),
    ;
}

impl<T> ResultVoidExt<T> for Result<T, Void> {
    /// A `Result<T, Void>` can only be `Ok`, and unwrapping it yields
    /// exactly the value it holds.
    open spec fn unwraps_to(self, value: T) -> bool {
        self matches Ok(v) && value == v
    }

    /// Get the value out of an always-ok Result.
    ///
    /// Never panics, since it is statically known to be Ok.
    fn void_unwrap(self) -> (value: T) {
        match self {
            Ok(val) => val,
            Err(e) => unreachable(e),
        }
    }
}

/// Extensions to `Result<Void, E>`
pub trait ResultVoidErrExt<E>: Sized {
    /// What `void_unwrap_err` returns for a given receiver.
    spec fn unwraps_err_to(self, error: E) -> bool;

    /// Get the error out of a wrapper.
    fn void_unwrap_err(self) -> (error: E)
        ensures
            self.unwraps_err_to(error),
    ;
}

impl<E> ResultVoidErrExt<E> for Result<Void, E> {
    /// A `Result<Void, E>` can only be `Err`, and unwrapping it yields
    /// exactly the error it holds.
    open spec fn unwraps_err_to(self, error: E) -> bool {
        self matches Err(e) && error == e
    }

    /// Get the error out of an always-err Result.
    ///
    /// Never panics, since it is statically known to be Err.
    fn void_unwrap_err(self) -> (error: E) {
        match self {
            Ok(v) => unreachable(v),
            Err(e) => e,
        }
    }
}

/// Law: round trip. A result built as `Ok(v)` unwraps to a value if and only
/// if that value is `v` itself: `void_unwrap` can return nothing else.
pub proof fn lemma_void_unwrap_round_trip<T>(v: T, value: T)
    ensures
        Ok::<T, Void>(v).unwraps_to(value) <==> value == v,
{
}

/// Law: symmetric round trip. A result built as `Err(e)` unwraps to an error
/// if and only if that error is `e` itself: `void_unwrap_err` can return
/// nothing else.
pub proof fn lemma_void_unwrap_err_round_trip<E>(e: E, error: E)
    ensures
        Err::<Void, E>(e).unwraps_err_to(error) <==> error == e,
{
}

} // verus!
