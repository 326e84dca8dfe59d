//! The handle of a spawned emission task, as tokio gives it.
use vstd::prelude::*;

verus! {

/// tokio's handle to a spawned task; opaque here.
#[verifier::external_type_specification]
#[verifier::external_body]
#[verifier::reject_recursive_types(T)]
pub struct ExJoinHandle<T>(tokio::task::JoinHandle<T>);

/// tokio's error for a task that panicked or was cancelled. This library never
/// awaits a handle, but the declaration is needed all the same: Verus reads
/// the `Future` impl of `JoinHandle`, whose output names this type, and
/// refuses the handle without it.
#[verifier::external_type_specification]
#[verifier::external_body]
pub struct ExJoinError(tokio::task::JoinError);

/// Relies on tokio's `JoinHandle::is_finished`: whether the task has run to
/// completion. It depends on the runtime's scheduling, so nothing is promised
/// of the answer; it does not panic.
pub assume_specification<T>[ tokio::task::JoinHandle::<T>::is_finished ](h: &tokio::task::JoinHandle<T>) -> bool;

/// Relies on tokio's `JoinHandle::abort`: asks the runtime to cancel the task,
/// and does nothing to one that has completed; it does not panic.
pub assume_specification<T>[ tokio::task::JoinHandle::<T>::abort ](h: &tokio::task::JoinHandle<T>);

} // verus!
