use vstd::prelude::*;

verus! {

/// The errors a cursor can surface to its caller.
#[derive(Clone, Copy, PartialEq, Eq, Structural, Debug)]
pub enum Error {
    /// Usage error: iteration was requested on a statement that produced no
    /// result columns (it was not a row-returning query).
    QueryBuilderError,
    /// The statement's error state was set after a fetch attempt; carries the
    /// server's error code.
    ServerError(u32),
}

/// The result of a cursor operation that can fail.
pub type QueryResult<T> = Result<T, Error>;

} // verus!
