//! The future adapters that the collection functions and the cursor build on.
//!
//! Each function here hands a future to the `futures` crate and states what
//! the adapted future resolves to in terms of what the given one resolves to.
//! Nothing in this file is proved: the contracts restate the adapters' source.

use vstd::prelude::*;
use vstd::future::FutureAdditionalSpecFns;
use core::future::Future;
use futures::future::{FutureExt, OptionFuture, TryFutureExt};

verus! {

/// `futures::future::FutureExt::map`: the future that resolves to `f` applied
/// to what `future` resolves to. `f` is called once, with that output, so it
/// has to accept every output.
#[verifier::external_body]
pub(crate) fn map_output<Fut, U, F>(future: Fut, f: F) -> (mapped: impl Future<Output = U>)
    where
        Fut: Future,
        F: FnOnce(Fut::Output) -> U,
    requires
        forall|output: Fut::Output| call_requires(f, (output,)),
    ensures
        call_ensures(f, (future@,), mapped@),
{
    future.map(f)
}

/// `futures::future::TryFutureExt::map_ok`: the future that resolves to `f`
/// applied to the success value of `future`, or to the error of `future`
/// untouched. `f` is called only on success.
#[verifier::external_body]
pub(crate) fn map_ok<Fut, V, E, U, F>(future: Fut, f: F) -> (mapped: impl Future<
    Output = Result<U, E>,
>)
    where
        Fut: Future<Output = Result<V, E>>,
        F: FnOnce(V) -> U,
    requires
        forall|value: V| call_requires(f, (value,)),
    ensures
        match future@ {
            Ok(value) => mapped@ is Ok && call_ensures(f, (value,), mapped@->Ok_0),
            Err(error) => mapped@ == Err::<U, E>(error),
        },
{
    future.map_ok(f)
}

/// `futures::future::OptionFuture::from`: the future that resolves to `None`
/// when there is no future to wait for, and otherwise to what that future
/// resolves to, in `Some`.
#[verifier::external_body]
pub(crate) fn optional<Fut>(pending: Option<Fut>) -> (waited: impl Future<
    Output = Option<Fut::Output>,
>)
    where
        Fut: Future,
    ensures
        match pending {
            Some(future) => waited@ == Some(future@),
            None => waited@ == None::<Fut::Output>,
        },
{
    OptionFuture::from(pending)
}

} // verus!
