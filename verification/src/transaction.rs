//! Transactions: a setup step, an operation, a rollback for its failure and a finalization
//! step, run in order into one of five states.

use vstd::prelude::*;

verus! {

/// The state that a run of a transaction has ended in.
#[derive(Debug, PartialEq, Eq)]
pub enum TransactionState<BE, O, E, RO, RE, FE> {
    /// The setup step failed. Nothing else was run.
    FailedBefore(BE),
    /// The operation succeeded.
    Success(O),
    /// The operation failed with the first item and was rolled back. The second item is the
    /// result of the rollback.
    Rollback(E, Result<RO, RE>),
    /// The operation succeeded with the first item, but the finalization step failed with the
    /// second.
    OkButFailedFinally(O, FE),
    /// The operation failed with the first item and was rolled back, with the second item as
    /// the result of the rollback. The finalization step then failed with the third.
    RollbackButFailedFinally(E, Result<RO, RE>, FE),
}

impl<BE, O, E, RO, RE, FE> TransactionState<BE, O, E, RO, RE, FE> {
    /// The state that a run ends in, from the state that it had come to before the
    /// finalization step and the result of that step. A step that succeeded leaves the state
    /// as it is. One that failed turns a success or a rollback into the state that also holds
    /// its error, and leaves any other state as it is.
    pub open spec fn concluded(self, finally: Result<(), FE>) -> Self {
        match finally {
            Ok(_) => self,
            Err(error) => match self {
                TransactionState::Success(value) => TransactionState::OkButFailedFinally(
                    value,
                    error,
                ),
                TransactionState::Rollback(failure, rollback) => {
                    TransactionState::RollbackButFailedFinally(failure, rollback, error)
                },
                other => other,
            },
        }
    }

    /// Whether `self` is the state that a run ends in that had come to `tentative` when its
    /// finalization step returned `finally`.
    pub open spec fn concludes(self, tentative: Self, finally: Result<(), FE>) -> bool {
        self == tentative.concluded(finally)
    }

    /// Ends a run that has come to `self` with the result of the finalization step.
    pub fn conclude(self, finally: Result<(), FE>) -> (state: Self)
        ensures
            state.concludes(self, finally),
    {
        match finally {
            Ok(_) => self,
            Err(error) => match self {
                TransactionState::Success(value) => TransactionState::OkButFailedFinally(
                    value,
                    error,
                ),
                TransactionState::Rollback(failure, rollback) => {
                    TransactionState::RollbackButFailedFinally(failure, rollback, error)
                },
                other => other,
            },
        }
    }
}

/// Whether `copy` is a clone of `source`: the same variant, holding a clone of what `source`
/// holds.
pub open spec fn result_cloned<T: Clone, E: Clone>(
    source: Result<T, E>,
    copy: Result<T, E>,
) -> bool {
    match (source, copy) {
        (Ok(a), Ok(b)) => cloned(a, b),
        (Err(a), Err(b)) => cloned(a, b),
        _ => false,
    }
}

/// Whether `copy` is a clone of `source`: the same variant, holding clones of what `source`
/// holds.
pub open spec fn state_cloned<BE: Clone, O: Clone, E: Clone, RO: Clone, RE: Clone, FE: Clone>(
    source: TransactionState<BE, O, E, RO, RE, FE>,
    copy: TransactionState<BE, O, E, RO, RE, FE>,
) -> bool {
    match (source, copy) {
        (TransactionState::FailedBefore(a), TransactionState::FailedBefore(b)) => cloned(a, b),
        (TransactionState::Success(a), TransactionState::Success(b)) => cloned(a, b),
        (TransactionState::Rollback(a, r), TransactionState::Rollback(b, s)) => cloned(a, b)
            && result_cloned(r, s),
        (
            TransactionState::OkButFailedFinally(a, e),
            TransactionState::OkButFailedFinally(b, f),
        ) => cloned(a, b) && cloned(e, f),
        (
            TransactionState::RollbackButFailedFinally(a, r, e),
            TransactionState::RollbackButFailedFinally(b, s, f),
        ) => cloned(a, b) && result_cloned(r, s) && cloned(e, f),
        _ => false,
    }
}

fn clone_result<T: Clone, E: Clone>(source: &Result<T, E>) -> (copy: Result<T, E>)
    ensures
        result_cloned(*source, copy),
{
    match source {
        Ok(value) => Ok(value.clone()),
        Err(error) => Err(error.clone()),
    }
}

impl<BE: Clone, O: Clone, E: Clone, RO: Clone, RE: Clone, FE: Clone> Clone for TransactionState<
    BE,
    O,
    E,
    RO,
    RE,
    FE,
> {
    fn clone(&self) -> (copy: Self)
        ensures
            state_cloned(*self, copy),
    {
        match self {
            TransactionState::FailedBefore(error) => TransactionState::FailedBefore(error.clone()),
            TransactionState::Success(value) => TransactionState::Success(value.clone()),
            TransactionState::Rollback(failure, rollback) => TransactionState::Rollback(
                failure.clone(),
                clone_result(rollback),
            ),
            TransactionState::OkButFailedFinally(value, error) => {
                TransactionState::OkButFailedFinally(value.clone(), error.clone())
            },
            TransactionState::RollbackButFailedFinally(failure, rollback, error) => {
                TransactionState::RollbackButFailedFinally(
                    failure.clone(),
                    clone_result(rollback),
                    error.clone(),
                )
            },
        }
    }
}

/// An operation with a setup step, a rollback for the case that it fails and a finalization
/// step. An implementation gives the four steps; [`Transaction::execute`] runs them.
pub trait Transaction: Sized {
    type BeforeError;

    type Success;

    type Error;

    type RollbackOk;

    type RollbackError;

    type FinallyError;

    /// Runs the transaction:
    /// - [`Transaction::before`] first. If it fails, its error is handed back as
    ///   [`TransactionState::FailedBefore`] and nothing else is run.
    /// - Then [`Transaction::operation`]. If it succeeds, the run has come to
    ///   [`TransactionState::Success`] with its value.
    /// - If it fails, [`Transaction::rollback`] with its error, and the run has come to
    ///   [`TransactionState::Rollback`] with that error and the result of the rollback,
    ///   whether the rollback succeeded or not.
    /// - Then [`Transaction::finally`] with that state. If it succeeds, that state is handed
    ///   back. If it fails, [`TransactionState::OkButFailedFinally`] or
    ///   [`TransactionState::RollbackButFailedFinally`] is, which holds its error too.
    ///
    /// Each step is run on the transaction as the step before it has left it. A step that
    /// panics is not caught.
    fn execute(self) -> (state: TransactionState<
        Self::BeforeError,
        Self::Success,
        Self::Error,
        Self::RollbackOk,
        Self::RollbackError,
        Self::FinallyError,
    >)
        ensures
            exists|setup: &mut Self, before: Result<(), Self::BeforeError>|
                {
                    &&& *setup == self
                    &&& #[trigger] call_ensures(Self::before, (setup,), before)
                    &&& match before {
                        Err(error) => state matches TransactionState::FailedBefore(failure)
                            && failure == error,
                        Ok(_) => exists|
                            run: &mut Self,
                            operation: Result<Self::Success, Self::Error>,
                        |
                            {
                                &&& *run == *final(setup)
                                &&& #[trigger] call_ensures(Self::operation, (run,), operation)
                                &&& match operation {
                                    Ok(value) => exists|
                                        end: &mut Self,
                                        finally: Result<(), Self::FinallyError>,
                                    |
                                        {
                                            &&& *end == *final(run)
                                            &&& #[trigger] call_ensures(
                                                Self::finally,
                                                (end, &TransactionState::Success(value)),
                                                finally,
                                            )
                                            &&& state.concludes(
                                                TransactionState::Success(value),
                                                finally,
                                            )
                                        },
                                    Err(error) => exists|
                                        undo: &mut Self,
                                        rollback: Result<Self::RollbackOk, Self::RollbackError>,
                                    |
                                        {
                                            &&& *undo == *final(run)
                                            &&& #[trigger] call_ensures(
                                                Self::rollback,
                                                (undo, &error),
                                                rollback,
                                            )
                                            &&& exists|
                                                end: &mut Self,
                                                finally: Result<(), Self::FinallyError>,
                                            |
                                                {
                                                    &&& *end == *final(undo)
                                                    &&& #[trigger] call_ensures(
                                                        Self::finally,
                                                        (
                                                            end,
                                                            &TransactionState::Rollback(
                                                                error,
                                                                rollback,
                                                            ),
                                                        ),
                                                        finally,
                                                    )
                                                    &&& state.concludes(
                                                        TransactionState::Rollback(error, rollback),
                                                        finally,
                                                    )
                                                }
                                        },
                                }
                            },
                    }
                },
    {
        let mut this = self;
        match this.before() {
            Err(error) => TransactionState::FailedBefore(error),
            Ok(_) => {
                let tentative = match this.operation() {
                    Ok(value) => TransactionState::Success(value),
                    Err(error) => {
                        let rollback = this.rollback(&error);
                        TransactionState::Rollback(error, rollback)
                    },
                };
                let finally = this.finally(&tentative);
                tentative.conclude(finally)
            },
        }
    }

    /// Prepares the transaction. If it fails, nothing else is run: no operation, no rollback
    /// and no finalization.
    fn before(&mut self) -> Result<(), Self::BeforeError>;

    /// The operation itself.
    fn operation(&mut self) -> Result<Self::Success, Self::Error>;

    /// Undoes what the operation did before it failed with `err_operation`.
    fn rollback(&mut self, err_operation: &Self::Error) -> Result<
        Self::RollbackOk,
        Self::RollbackError,
    >;

    /// Runs at the end, whether the operation succeeded or was rolled back. `state` is
    /// [`TransactionState::Success`] or [`TransactionState::Rollback`].
    fn finally(
        &mut self,
        state: &TransactionState<
            Self::BeforeError,
            Self::Success,
            Self::Error,
            Self::RollbackOk,
            Self::RollbackError,
            Self::FinallyError,
        >,
    ) -> Result<(), Self::FinallyError>;
}

/// What a computation that aborted left behind for the fault boundary that caught it: the
/// payload of the panic. The payload is a trait object of a kind that Verus does not take, so
/// the type is opaque to it: a value is carried from the boundary to the conversion, and
/// nothing is said of what is in it.
#[verifier::external_body]
pub struct PanicError(pub Box<dyn core::any::Any + Send>);

/// Whether `result` is what a step comes to that yielded `caught` at its fault boundary: the
/// step's own result if it returned, and the error that the payload converts to if it
/// aborted.
pub open spec fn settles<T, E: From<PanicError>>(
    caught: Result<Result<T, E>, PanicError>,
    result: Result<T, E>,
) -> bool {
    match caught {
        Ok(returned) => result == returned,
        Err(payload) => result matches Err(error) && call_ensures(E::from, (payload,), error),
    }
}

/// Turns what a fault boundary around a step yielded into the result of the step: an abort
/// counts as a failure of the step, with the error that its payload converts to.
pub fn settle<T, E: From<PanicError>>(caught: Result<Result<T, E>, PanicError>) -> (result: Result<
    T,
    E,
>)
    ensures
        settles(caught, result),
{
    match caught {
        Ok(Ok(value)) => Ok(value),
        Ok(Err(error)) => Err(error),
        Err(payload) => Err(E::from(payload)),
    }
}

/// What runs the steps of a transaction inside fault boundaries. Each method runs the step of
/// its name on `transaction`, once, and hands back what the step returned, or the payload
/// that the step aborted with. Nothing is said of the transaction that an aborted step
/// leaves behind.
pub trait FaultBoundary<T: Transaction> {
    fn before(&self, transaction: &mut T) -> (caught: Result<
        Result<(), T::BeforeError>,
        PanicError,
    >)
        ensures
            caught matches Ok(result) ==> exists|step: &mut T|
                {
                    &&& *step == *old(transaction)
                    &&& *final(step) == *final(transaction)
                    &&& #[trigger] call_ensures(T::before, (step,), result)
                },
    ;

    fn operation(&self, transaction: &mut T) -> (caught: Result<
        Result<T::Success, T::Error>,
        PanicError,
    >)
        ensures
            caught matches Ok(result) ==> exists|step: &mut T|
                {
                    &&& *step == *old(transaction)
                    &&& *final(step) == *final(transaction)
                    &&& #[trigger] call_ensures(T::operation, (step,), result)
                },
    ;

    fn rollback(&self, transaction: &mut T, err_operation: &T::Error) -> (caught: Result<
        Result<T::RollbackOk, T::RollbackError>,
        PanicError,
    >)
        ensures
            caught matches Ok(result) ==> exists|step: &mut T|
                {
                    &&& *step == *old(transaction)
                    &&& *final(step) == *final(transaction)
                    &&& #[trigger] call_ensures(T::rollback, (step, err_operation), result)
                },
    ;

    fn finally(
        &self,
        transaction: &mut T,
        state: &TransactionState<
            T::BeforeError,
            T::Success,
            T::Error,
            T::RollbackOk,
            T::RollbackError,
            T::FinallyError,
        >,
    ) -> (caught: Result<Result<(), T::FinallyError>, PanicError>)
        ensures
            caught matches Ok(result) ==> exists|step: &mut T|
                {
                    &&& *step == *old(transaction)
                    &&& *final(step) == *final(transaction)
                    &&& #[trigger] call_ensures(T::finally, (step, state), result)
                },
    ;
}

/// The fault boundary that catches nothing: each step is run as it is, and what it returned
/// is handed back. A run inside it is a plain run.
pub struct PassThrough;

impl<T: Transaction> FaultBoundary<T> for PassThrough {
    fn before(&self, transaction: &mut T) -> (caught: Result<
        Result<(), T::BeforeError>,
        PanicError,
    >)
        ensures
            caught is Ok,
    {
        Ok(transaction.before())
    }

    fn operation(&self, transaction: &mut T) -> (caught: Result<
        Result<T::Success, T::Error>,
        PanicError,
    >)
        ensures
            caught is Ok,
    {
        Ok(transaction.operation())
    }

    fn rollback(&self, transaction: &mut T, err_operation: &T::Error) -> (caught: Result<
        Result<T::RollbackOk, T::RollbackError>,
        PanicError,
    >)
        ensures
            caught is Ok,
    {
        Ok(transaction.rollback(err_operation))
    }

    fn finally(
        &self,
        transaction: &mut T,
        state: &TransactionState<
            T::BeforeError,
            T::Success,
            T::Error,
            T::RollbackOk,
            T::RollbackError,
            T::FinallyError,
        >,
    ) -> (caught: Result<Result<(), T::FinallyError>, PanicError>)
        ensures
            caught is Ok,
    {
        Ok(transaction.finally(state))
    }
}

/// A transaction whose error types can all be made from a [`PanicError`]. Every such
/// transaction can be run with its steps inside fault boundaries.
pub trait UnwindCheckedTransaction: Transaction where
    Self::BeforeError: From<PanicError>,
    Self::Error: From<PanicError>,
    Self::RollbackError: From<PanicError>,
    Self::FinallyError: From<PanicError>,
 {
    /// Runs the transaction as [`Transaction::execute`] does, with every step inside a fault
    /// boundary of its own: `boundary` runs the step, and what it yields is settled into the
    /// result of the step. A step that aborts so counts as one that failed, with the error
    /// that the payload converts to, and the steps after it are run as after any other
    /// failure.
    fn execute_unwind_checked<B: FaultBoundary<Self>>(self, boundary: &B) -> (state:
        TransactionState<
        Self::BeforeError,
        Self::Success,
        Self::Error,
        Self::RollbackOk,
        Self::RollbackError,
        Self::FinallyError,
    >)
        ensures
            exists|
                setup: &mut Self,
                caught: Result<Result<(), Self::BeforeError>, PanicError>,
                before: Result<(), Self::BeforeError>,
            |
                #![trigger call_ensures(B::before, (boundary, setup), caught), settles(caught, before)]
                {
                    &&& *setup == self
                    &&& call_ensures(B::before, (boundary, setup), caught)
                    &&& settles(caught, before)
                    &&& match before {
                        Err(error) => state matches TransactionState::FailedBefore(failure)
                            && failure == error,
                        Ok(_) => exists|
                            run: &mut Self,
                            caught: Result<Result<Self::Success, Self::Error>, PanicError>,
                            operation: Result<Self::Success, Self::Error>,
                        |
                            #![trigger call_ensures(B::operation, (boundary, run), caught), settles(caught, operation)]
                            {
                                &&& *run == *final(setup)
                                &&& call_ensures(B::operation, (boundary, run), caught)
                                &&& settles(caught, operation)
                                &&& match operation {
                                    Ok(value) => exists|
                                        end: &mut Self,
                                        caught: Result<Result<(), Self::FinallyError>, PanicError>,
                                        finally: Result<(), Self::FinallyError>,
                                    |
                                        #![trigger call_ensures(B::finally, (boundary, end, &TransactionState::Success(value)), caught), settles(caught, finally)]
                                        {
                                            &&& *end == *final(run)
                                            &&& call_ensures(
                                                B::finally,
                                                (boundary, end, &TransactionState::Success(value)),
                                                caught,
                                            )
                                            &&& settles(caught, finally)
                                            &&& state.concludes(
                                                TransactionState::Success(value),
                                                finally,
                                            )
                                        },
                                    Err(error) => exists|
                                        undo: &mut Self,
                                        caught: Result<
                                            Result<Self::RollbackOk, Self::RollbackError>,
                                            PanicError,
                                        >,
                                        rollback: Result<Self::RollbackOk, Self::RollbackError>,
                                    |
                                        #![trigger call_ensures(B::rollback, (boundary, undo, &error), caught), settles(caught, rollback)]
                                        {
                                            &&& *undo == *final(run)
                                            &&& call_ensures(
                                                B::rollback,
                                                (boundary, undo, &error),
                                                caught,
                                            )
                                            &&& settles(caught, rollback)
                                            &&& exists|
                                                end: &mut Self,
                                                caught: Result<
                                                    Result<(), Self::FinallyError>,
                                                    PanicError,
                                                >,
                                                finally: Result<(), Self::FinallyError>,
                                            |
                                                #![trigger call_ensures(B::finally, (boundary, end, &TransactionState::Rollback(error, rollback)), caught), settles(caught, finally)]
                                                {
                                                    &&& *end == *final(undo)
                                                    &&& call_ensures(
                                                        B::finally,
                                                        (
                                                            boundary,
                                                            end,
                                                            &TransactionState::Rollback(
                                                                error,
                                                                rollback,
                                                            ),
                                                        ),
                                                        caught,
                                                    )
                                                    &&& settles(caught, finally)
                                                    &&& state.concludes(
                                                        TransactionState::Rollback(error, rollback),
                                                        finally,
                                                    )
                                                }
                                        },
                                }
                            },
                    }
                },
    {
        let mut this = self;
        match settle(boundary.before(&mut this)) {
            Err(error) => TransactionState::FailedBefore(error),
            Ok(_) => {
                let tentative = match settle(boundary.operation(&mut this)) {
                    Ok(value) => TransactionState::Success(value),
                    Err(error) => {
                        let rollback = settle(boundary.rollback(&mut this, &error));
                        TransactionState::Rollback(error, rollback)
                    },
                };
                let finally = settle(boundary.finally(&mut this, &tentative));
                tentative.conclude(finally)
            },
        }
    }
}

impl<T> UnwindCheckedTransaction for T where
    T: Transaction,
    T::BeforeError: From<PanicError>,
    T::Error: From<PanicError>,
    T::RollbackError: From<PanicError>,
    T::FinallyError: From<PanicError>,
 {

}

/// An operation that aborts inside its fault boundary is rolled back like one that failed:
/// it comes to an error, the one that the payload converts to, so that the run comes to a
/// rollback with that error and ends in a rollback, with the error of the finalization step
/// if that step failed.
pub proof fn lemma_aborted_operation_is_rolled_back<BE, O, E: From<PanicError>, RO, RE, FE>(
    payload: PanicError,
    operation: Result<O, E>,
    rollback: Result<RO, RE>,
    finally: Result<(), FE>,
    state: TransactionState<BE, O, E, RO, RE, FE>,
)
    requires
        settles(Err(payload), operation),
        operation matches Err(error) ==> state.concludes(
            TransactionState::Rollback(error, rollback),
            finally,
        ),
    ensures
        operation matches Err(error) && call_ensures(E::from, (payload,), error) && state
            == match finally {
            Ok(_) => TransactionState::<BE, O, E, RO, RE, FE>::Rollback(error, rollback),
            Err(failure) => TransactionState::RollbackButFailedFinally(error, rollback, failure),
        },
{
}

} // verus!
