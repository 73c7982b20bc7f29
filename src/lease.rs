use vstd::prelude::*;

use crate::error::{checked_out, lifted, query_result, AsyncError, AsyncResult, QueryFailure};

verus! {

/// Runs `f` on a leased connection, given the outcome of the checkout that
/// should have supplied it.
///
/// A failed checkout is reported as `AsyncError::Checkout` and `f` is not run.
/// Otherwise `f` is given the lease, by value, so that nothing else can use
/// the connection while `f` runs and the lease ends when `f` returns; its
/// failure is reported as `AsyncError::Error` and its success returned as it is.
pub fn run_leased<L, R, F>(checkout: Result<L, r2d2::Error>, f: F) -> (r: AsyncResult<R>) where
    F: FnOnce(L) -> Result<R, QueryFailure>,
    requires
        checkout is Ok ==> f.requires((checkout->Ok_0,)),
    ensures
        checkout is Err ==> r == Err::<R, AsyncError>(AsyncError::Checkout(checkout->Err_0)),
        checkout is Ok ==> exists|out: Result<R, QueryFailure>|
            f.ensures((checkout->Ok_0,), out) && r == lifted(out),
{
    match checked_out(checkout) {
        Err(e) => Err(e),
        Ok(lease) => {
            let outcome = f(lease);
            query_result(outcome)
        },
    }
}

} // verus!
