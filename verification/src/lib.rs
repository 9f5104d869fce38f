//! Building blocks for operations that have to be undone when they fail.
//!
//! A rollback guard holds an action that is to be run when a scope ends. [`rollback`] and
//! [`infallible_rollback`] make one. `do_rollback` runs the action and hands back its result,
//! [`RollbackGuard::ok`] calls it off, and `release` is for the end of the scope: it runs the
//! action and hands back the error that is left to dispose of.
//!
//! A [`Transaction`] has a setup step, an operation, a rollback for the case that the
//! operation fails and a finalization step. [`Transaction::execute`] runs them in order and
//! hands back a [`TransactionState`] that holds the result of every step that was run.
//! [`UnwindCheckedTransaction::execute_unwind_checked`] does the same with every step inside
//! a [`FaultBoundary`], so that a step that aborts counts as one that failed.

mod private;
mod rollback;
mod transaction;

pub use rollback::{
    infallible_rollback, keeps_flavor, rollback, unhandled, ActionSlot, MandatoryRollbackGuard,
    MaybeError, Rollback, RollbackError, RollbackGuard,
};
pub use transaction::{
    lemma_aborted_operation_is_rolled_back, result_cloned, settle, settles, state_cloned,
    FaultBoundary, PanicError, PassThrough, Transaction, TransactionState,
    UnwindCheckedTransaction,
};
