//! Combined CAS result and execution report.
use vstd::prelude::*;

use crate::error::error_cloned;
use crate::error::CasError;
use crate::report::CasExecutionReport;
use crate::success::success_cloned;
use crate::success::CasSuccess;

verus! {

/// Public return value for one CAS execution: the terminal result together
/// with the execution report.
#[must_use]
#[derive(Debug)]
pub struct CasOutcome<T, R, E> {
    result: Result<CasSuccess<T, R>, CasError<T, E>>,
    report: CasExecutionReport,
}

impl<T, R, E> CasOutcome<T, R, E> {
    /// Terminal success or error.
    pub closed spec fn spec_result(&self) -> Result<CasSuccess<T, R>, CasError<T, E>> {
        self.result
    }

    /// Execution report captured for the flow.
    pub closed spec fn spec_report(&self) -> CasExecutionReport {
        self.report
    }

    /// Creates a CAS outcome from a terminal result and execution report.
    pub fn new(result: Result<CasSuccess<T, R>, CasError<T, E>>, report: CasExecutionReport) -> (r: Self)
        ensures
            r.spec_result() == result,
            r.spec_report() == report,
    {
        CasOutcome { result, report }
    }

    /// Returns the terminal result.
    pub fn result(&self) -> (r: &Result<CasSuccess<T, R>, CasError<T, E>>)
        ensures
            *r == self.spec_result(),
    {
        &self.result
    }

    /// Returns the execution report.
    pub fn report(&self) -> (r: &CasExecutionReport)
        ensures
            *r == self.spec_report(),
    {
        &self.report
    }

    /// Returns whether the execution succeeded.
    pub fn is_ok(&self) -> (r: bool)
        ensures
            r == self.spec_result() is Ok,
    {
        self.result.is_ok()
    }

    /// Returns whether the execution failed.
    pub fn is_err(&self) -> (r: bool)
        ensures
            r == self.spec_result() is Err,
    {
        self.result.is_err()
    }

    /// Consumes the outcome and returns its terminal result.
    pub fn into_result(self) -> (r: Result<CasSuccess<T, R>, CasError<T, E>>)
        ensures
            r == self.spec_result(),
    {
        self.result
    }

    /// Consumes the outcome and returns its parts.
    pub fn into_parts(self) -> (r: (Result<CasSuccess<T, R>, CasError<T, E>>, CasExecutionReport))
        ensures
            r.0 == self.spec_result(),
            r.1 == self.spec_report(),
    {
        (self.result, self.report)
    }

    /// Returns the success value of a successful outcome.
    ///
    /// The message names the expectation; the outcome must be a success.
    pub fn expect(self, message: &str) -> (r: CasSuccess<T, R>)
        requires
            self.spec_result() is Ok,
        ensures
            self.spec_result() == Ok::<CasSuccess<T, R>, CasError<T, E>>(r),
    {
        match self.result {
            Ok(success) => success,
            Err(_) => {
                proof {
                    assert(false);
                }
                vstd::pervasive::unreached()
            },
        }
    }

    /// Returns the error value of a failed outcome.
    ///
    /// The message names the expectation; the outcome must be an error.
    pub fn expect_err(self, message: &str) -> (r: CasError<T, E>)
        requires
            self.spec_result() is Err,
        ensures
            self.spec_result() == Err::<CasSuccess<T, R>, CasError<T, E>>(r),
    {
        match self.result {
            Err(error) => error,
            Ok(_) => {
                proof {
                    assert(false);
                }
                vstd::pervasive::unreached()
            },
        }
    }
}

/// Whether `b` is a clone of the result `a`: both successes with `b` a clone
/// of `a`, or both errors with `b` a clone of `a`.
pub open spec fn result_cloned<T, R: Clone, E: Clone>(
    a: Result<CasSuccess<T, R>, CasError<T, E>>,
    b: Result<CasSuccess<T, R>, CasError<T, E>>,
) -> bool {
    match (a, b) {
        (Ok(x), Ok(y)) => success_cloned(x, y),
        (Err(x), Err(y)) => error_cloned(x, y),
        _ => false,
    }
}

impl<T: Clone, R: Clone, E: Clone> Clone for CasOutcome<T, R, E> {
    /// Clones the terminal result and copies the report.
    fn clone(&self) -> (r: Self)
        ensures
            result_cloned(self.spec_result(), r.spec_result()),
            r.spec_report()@ == self.spec_report()@,
    {
        let result = match &self.result {
            Ok(success) => Ok(success.clone()),
            Err(error) => Err(error.clone()),
        };
        CasOutcome { result, report: self.report.clone() }
    }
}

} // verus!
