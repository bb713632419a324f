//! Successful results of lightweight compare-and-swap over compact state codes.
use vstd::prelude::*;

verus! {

/// Successful fast compare-and-swap result.
#[derive(Debug, Clone, Copy, Eq, PartialEq)]
pub struct FastCasSuccess<R> {
    previous: usize,
    current: usize,
    output: R,
    attempts: u32,
}

impl<R> FastCasSuccess<R> {
    /// State code observed by the successful attempt.
    pub closed spec fn spec_previous(&self) -> usize {
        self.previous
    }

    /// State code after completion.
    pub closed spec fn spec_current(&self) -> usize {
        self.current
    }

    /// Business output of the operation.
    pub closed spec fn spec_output(&self) -> R {
        self.output
    }

    /// Number of attempts consumed.
    pub closed spec fn spec_attempts(&self) -> u32 {
        self.attempts
    }

    /// Creates a successful result.
    pub fn new(previous: usize, current: usize, output: R, attempts: u32) -> (r: Self)
        ensures
            r.spec_previous() == previous,
            r.spec_current() == current,
            r.spec_output() == output,
            r.spec_attempts() == attempts,
    {
        FastCasSuccess { previous, current, output, attempts }
    }

    /// Returns the state observed before successful completion.
    pub fn previous(&self) -> (r: usize)
        ensures
            r == self.spec_previous(),
    {
        self.previous
    }

    /// Returns the state after completion.
    pub fn current(&self) -> (r: usize)
        ensures
            r == self.spec_current(),
    {
        self.current
    }

    /// Returns a shared reference to the business output.
    pub fn output(&self) -> (r: &R)
        ensures
            *r == self.spec_output(),
    {
        &self.output
    }

    /// Consumes this result and returns the business output.
    pub fn into_output(self) -> (r: R)
        ensures
            r == self.spec_output(),
    {
        self.output
    }

    /// Returns the number of attempts consumed.
    pub fn attempts(&self) -> (r: u32)
        ensures
            r == self.spec_attempts(),
    {
        self.attempts
    }

    /// Tests whether this success installed a different state.
    pub fn is_updated(&self) -> (r: bool)
        ensures
            r == (self.spec_previous() != self.spec_current()),
    {
        self.previous != self.current
    }

    /// Tests whether this success completed without changing state.
    pub fn is_finished(&self) -> (r: bool)
        ensures
            r == (self.spec_previous() == self.spec_current()),
    {
        self.previous == self.current
    }
}

} // verus!
