//! Wait for the first of several futures to complete.
//!
//! These combinators only bundle their futures into one value; the polling
//! that races them belongs to the async runtime around the library and is
//! not part of the verified logic.

use core::future::Future;
use vstd::prelude::*;

verus! {

/// Result for [`select5`].
#[derive(Debug, Clone)]
pub enum Either5<A, B, C, D, E> {
    /// First future finished first.
    First(A),
    /// Second future finished first.
    Second(B),
    /// Third future finished first.
    Third(C),
    /// Fourth future finished first.
    Fourth(D),
    /// Fifth future finished first.
    Fifth(E),
}

/// Waits for the first of five futures to complete.
pub fn select5<A, B, C, D, E>(a: A, b: B, c: C, d: D, e: E) -> (s: Select5<A, B, C, D, E>)
    where
        A: Future,
        B: Future,
        C: Future,
        D: Future,
        E: Future,
    ensures
        s == (Select5 { a, b, c, d, e }),
{
    Select5 { a, b, c, d, e }
}

/// Future for the [`select5`] function.
#[derive(Debug)]
#[must_use]
pub struct Select5<A, B, C, D, E> {
    /// First future to race.
    pub a: A,
    /// Second future to race.
    pub b: B,
    /// Third future to race.
    pub c: C,
    /// Fourth future to race.
    pub d: D,
    /// Fifth future to race.
    pub e: E,
}

/// Result for [`select6`].
#[derive(Debug, Clone)]
pub enum Either6<A, B, C, D, E, F> {
    /// First future finished first.
    First(A),
    /// Second future finished first.
    Second(B),
    /// Third future finished first.
    Third(C),
    /// Fourth future finished first.
    Fourth(D),
    /// Fifth future finished first.
    Fifth(E),
    /// Sixth future finished first.
    Sixth(F),
}

/// Waits for the first of six futures to complete.
pub fn select6<A, B, C, D, E, F>(a: A, b: B, c: C, d: D, e: E, f: F) -> (s: Select6<
    A,
    B,
    C,
    D,
    E,
    F,
>)
    where
        A: Future,
        B: Future,
        C: Future,
        D: Future,
        E: Future,
        F: Future,
    ensures
        s == (Select6 { a, b, c, d, e, f }),
{
    Select6 { a, b, c, d, e, f }
}

/// Future for the [`select6`] function.
#[derive(Debug)]
#[must_use]
pub struct Select6<A, B, C, D, E, F> {
    /// First future to race.
    pub a: A,
    /// Second future to race.
    pub b: B,
    /// Third future to race.
    pub c: C,
    /// Fourth future to race.
    pub d: D,
    /// Fifth future to race.
    pub e: E,
    /// Sixth future to race.
    pub f: F,
}

/// Result for [`select7`].
#[derive(Debug, Clone)]
pub enum Either7<A, B, C, D, E, F, G> {
    /// First future finished first.
    First(A),
    /// Second future finished first.
    Second(B),
    /// Third future finished first.
    Third(C),
    /// Fourth future finished first.
    Fourth(D),
    /// Fifth future finished first.
    Fifth(E),
    /// Sixth future finished first.
    Sixth(F),
    /// Seventh future finished first.
    Seventh(G),
}

/// Waits for the first of seven futures to complete.
pub fn select7<A, B, C, D, E, F, G>(a: A, b: B, c: C, d: D, e: E, f: F, g: G) -> (s: Select7<
    A,
    B,
    C,
    D,
    E,
    F,
    G,
>)
    where
        A: Future,
        B: Future,
        C: Future,
        D: Future,
        E: Future,
        F: Future,
        G: Future,
    ensures
        s == (Select7 { a, b, c, d, e, f, g }),
{
    Select7 { a, b, c, d, e, f, g }
}

/// Future for the [`select7`] function.
#[derive(Debug)]
#[must_use]
pub struct Select7<A, B, C, D, E, F, G> {
    /// First future to race.
    pub a: A,
    /// Second future to race.
    pub b: B,
    /// Third future to race.
    pub c: C,
    /// Fourth future to race.
    pub d: D,
    /// Fifth future to race.
    pub e: E,
    /// Sixth future to race.
    pub f: F,
    /// Seventh future to race.
    pub g: G,
}

} // verus!
