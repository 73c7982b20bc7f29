use vstd::prelude::*;

verus! {

/// `r2d2::Error`, carried as the cause of a failed checkout.
#[verifier::external_type_specification]
#[verifier::external_body]
pub struct ExPoolError(r2d2::Error);

/// `diesel::result::Error`, carried as the cause of a failed operation.
#[verifier::external_type_specification]
#[verifier::external_body]
pub struct ExDieselError(diesel::result::Error);

/// Why an operation against a leased connection failed.
///
/// "No matching row" is kept as a variant of its own, so that it can be told
/// apart from every other failure without looking into the underlying cause.
#[derive(Debug)]
pub enum QueryFailure {
    /// The query was expected to yield a row and yielded none.
    NotFound,
    /// Any other failure, with its underlying cause.
    Failed(diesel::result::Error),
}

/// The one failure type of the bridge: either no connection could be leased,
/// or the operation on the leased connection failed.
#[derive(Debug)]
pub enum AsyncError {
    /// The pool could not supply a connection.
    Checkout(r2d2::Error),
    /// The operation against the connection failed.
    Error(QueryFailure),
}

pub type AsyncResult<R> = Result<R, AsyncError>;

/// `Some` for a success, `None` for the "no matching row" failure, every other
/// failure unchanged.
pub open spec fn optional_of<T>(res: AsyncResult<T>) -> Result<Option<T>, AsyncError> {
    match res {
        Ok(v) => Ok(Some(v)),
        Err(AsyncError::Error(QueryFailure::NotFound)) => Ok(None),
        Err(e) => Err(e),
    }
}

/// A failure of the operation on the connection, lifted into the unified error.
pub open spec fn lifted<R>(res: Result<R, QueryFailure>) -> AsyncResult<R> {
    match res {
        Ok(v) => Ok(v),
        Err(q) => Err(AsyncError::Error(q)),
    }
}

/// The outcome of a checkout, with a pool failure lifted into the unified error.
pub open spec fn checked_out_of<L>(res: Result<L, r2d2::Error>) -> Result<L, AsyncError> {
    match res {
        Ok(l) => Ok(l),
        Err(e) => Err(AsyncError::Checkout(e)),
    }
}

/// Reads a result as present, definitively absent, or failed.
pub trait OptionalExtension<T>: Sized {
    spec fn optional_spec(self) -> Result<Option<T>, AsyncError>;

    fn optional(self) -> (r: Result<Option<T>, AsyncError>)
        ensures
            r == self.optional_spec(),
    ;
}

impl<T> OptionalExtension<T> for AsyncResult<T> {
    open spec fn optional_spec(self) -> Result<Option<T>, AsyncError> {
        optional_of(self)
    }

    fn optional(self) -> (r: Result<Option<T>, AsyncError>) {
        match self {
            Ok(value) => Ok(Some(value)),
            Err(AsyncError::Error(QueryFailure::NotFound)) => Ok(None),
            Err(e) => Err(e),
        }
    }
}

/// Relies on the variants of `diesel::result::Error`: `NotFound` is moved to
/// its own variant, every other error is carried as it is.
#[verifier::external_body]
pub(crate) fn query_failure(e: diesel::result::Error) -> (r: QueryFailure) {
    match e {
        diesel::result::Error::NotFound => QueryFailure::NotFound,
        other => QueryFailure::Failed(other),
    }
}

/// Sorts the outcome of a diesel query: a success is kept, a failure is
/// carried as a `QueryFailure`, with "no matching row" as `NotFound`.
pub fn query_outcome<R>(res: Result<R, diesel::result::Error>) -> (r: Result<R, QueryFailure>)
    ensures
        res is Ok ==> r == Ok::<R, QueryFailure>(res->Ok_0),
        res is Err ==> r is Err,
{
    match res {
        Ok(v) => Ok(v),
        Err(e) => Err(query_failure(e)),
    }
}

/// Lifts the outcome of an operation on a leased connection into the unified
/// result: a success is kept, a failure becomes `AsyncError::Error`.
pub fn query_result<R>(res: Result<R, QueryFailure>) -> (r: AsyncResult<R>)
    ensures
        r == lifted(res),
{
    match res {
        Ok(v) => Ok(v),
        Err(q) => Err(AsyncError::Error(q)),
    }
}

/// Lifts the outcome of a pool checkout: a leased connection is kept, a pool
/// failure becomes `AsyncError::Checkout`.
pub fn checked_out<L>(res: Result<L, r2d2::Error>) -> (r: Result<L, AsyncError>)
    ensures
        r == checked_out_of(res),
{
    match res {
        Ok(l) => Ok(l),
        Err(e) => Err(AsyncError::Checkout(e)),
    }
}

/// Reading the lifted outcome of an operation as optional: a success is
/// present, "no matching row" is absent with no error, and every other
/// failure of the operation, like every checkout failure, comes back as the
/// same failure.
pub proof fn optional_of_lifted<T>(res: Result<T, QueryFailure>, e: r2d2::Error)
    ensures
        res is Ok ==> optional_of(lifted(res)) == Ok::<Option<T>, AsyncError>(Some(res->Ok_0)),
        res == Err::<T, QueryFailure>(QueryFailure::NotFound) ==> optional_of(lifted(res)) == Ok::<
            Option<T>,
            AsyncError,
        >(None),
        res is Err && res->Err_0 is Failed ==> optional_of(lifted(res)) == Err::<
            Option<T>,
            AsyncError,
        >(AsyncError::Error(res->Err_0)),
        optional_of(Err::<T, AsyncError>(AsyncError::Checkout(e))) == Err::<Option<T>, AsyncError>(
            AsyncError::Checkout(e),
        ),
{
}

} // verus!
