//! The generic envelope the transport layer wraps results in: exactly one
//! of a single result, a list of results, or an error.

use vstd::prelude::*;

verus! {

/// A response carrying one result, many results, or an error.
#[derive(Debug, Clone)]
pub struct GenericResponse<T> {
    pub result: Option<T>,
    pub results: Option<Vec<T>>,
    pub error: Option<String>,
}

/// Whether a request succeeded.
#[derive(Debug, Clone)]
pub enum ResponseStatus {
    Success,
    Error(String),
}

impl<T> GenericResponse<T> {
    /// A response carrying one result.
    pub fn result(result: T) -> (r: Self)
        ensures
            r.result == Some(result),
            r.results is None,
            r.error is None,
    {
        GenericResponse { result: Some(result), results: None, error: None }
    }

    /// A response carrying a list of results.
    pub fn results(results: Vec<T>) -> (r: Self)
        ensures
            r.result is None,
            r.results == Some(results),
            r.error is None,
    {
        GenericResponse { result: None, results: Some(results), error: None }
    }

    /// A response carrying an error.
    pub fn error(error: String) -> (r: Self)
        ensures
            r.result is None,
            r.results is None,
            r.error == Some(error),
    {
        GenericResponse { result: None, results: None, error: Some(error) }
    }
}

} // verus!
