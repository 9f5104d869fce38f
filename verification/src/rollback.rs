//! Rollback guards: an action that is to be run when a scope ends, unless it was called off
//! or run before.
//!
//! Nothing here can tell by itself that a scope has ended. Whoever holds a guard tells it so
//! with `release`, which runs the action and hands back the error that is left to dispose of.

use crate::private::Sealed;
use core::fmt::Display;
use core::marker::PhantomData;
use core::mem::ManuallyDrop;
use vstd::prelude::*;

verus! {

/// A guard for `rollback_action`. The action is run by [`RollbackGuard::do_rollback`], which
/// hands back its result, or by [`RollbackGuard::release`] when the scope of the guard ends.
/// [`RollbackGuard::ok`] calls it off.
///
/// An action with `()` as its error type cannot fail: it has to be one that never returns an
/// error. An action that can fail has a [`RollbackError`].
///
/// The action should not panic.
pub fn rollback<F, T, E>(rollback_action: F) -> (guard: RollbackGuard<T, E, F>) where
    F: FnOnce() -> Result<T, E>,
    E: MaybeError,

    requires
        call_requires(rollback_action, ()),
        keeps_flavor::<T, E, F>(rollback_action),
    ensures
        guard.action() == rollback_action,
{
    RollbackGuard { slot: ActionSlot::new(rollback_action) }
}

/// A guard for an action that cannot fail: it runs `rollback_action`, and what the action
/// returns comes back from [`RollbackGuard::do_rollback`] as a success, never as an error.
///
/// The action should not panic.
pub fn infallible_rollback<F, T>(rollback_action: F) -> (guard: RollbackGuard<
    T,
    (),
    impl FnOnce() -> Result<T, ()>,
>) where F: FnOnce() -> T
    requires
        call_requires(rollback_action, ()),
    ensures
        forall|result: Result<T, ()>| #[trigger]
            call_ensures(guard.action(), (), result) ==> (result matches Ok(value)
                && call_ensures(rollback_action, (), value)),
{
    let action = move || -> (result: Result<T, ()>)
        requires
            call_requires(rollback_action, ()),
        ensures
            result matches Ok(value) && call_ensures(rollback_action, (), value),
        { Ok(rollback_action()) };
    rollback(action)
}

/// The error types that a rollback action can have: `()` for an action that cannot fail,
/// [`RollbackError`] for one that can.
pub trait MaybeError: Sealed {
    /// Whether an action with this error type can fail.
    spec fn may_fail() -> bool;
}

impl MaybeError for () {
    open spec fn may_fail() -> bool {
        false
    }
}

impl<E: Display + Send + Sync + 'static> MaybeError for RollbackError<E> {
    open spec fn may_fail() -> bool {
        true
    }
}

/// Whether `action` is what its error type says: with an error type that cannot fail, it
/// never returns an error.
pub open spec fn keeps_flavor<T, E: MaybeError, F: FnOnce() -> Result<T, E>>(action: F) -> bool {
    !E::may_fail() ==> forall|result: Result<T, E>| #[trigger]
        call_ensures(action, (), result) ==> result is Ok
}

/// The error of a rollback action that failed.
#[derive(Debug)]
pub struct RollbackError<E>(pub E) where E: Send + Sync + 'static;

impl<E: Display + Send + Sync + 'static> RollbackError<E> {
    /// The text that describes the error: `Rollback error: `, then the inner error as it
    /// displays itself.
    pub fn message(&self) -> (text: String)
        ensures
            exists|inner: String| #[trigger]
                vstd::string::to_string_from_display_ensures::<E>(&self.0, inner) && text@
                    == "Rollback error: "@ + inner@,
    {
        let mut text = "Rollback error: ".to_owned();
        let inner = self.0.to_string();
        text.push_str(inner.as_str());
        text
    }
}

/// `String::push_str` appends the slice to the end of the string, as its documentation says.
pub assume_specification[ String::push_str ](text: &mut String, tail: &str)
    ensures
        final(text)@ == old(text)@ + tail@,
;

/// A value that can be rolled back.
pub trait Rollback {
    type RollbackOk;

    type RollbackError;

    /// Performs the rollback and hands back its result.
    fn do_rollback(self) -> Result<Self::RollbackOk, Self::RollbackError>;
}

/// Empties the place and hands back what was in it.
fn vacate<F>(place: &mut Option<F>) -> (content: Option<F>)
    ensures
        content == *old(place),
        *final(place) is None,
    opens_invariants none
    no_unwind
{
    let mut content = None;
    core::mem::swap(place, &mut content);
    content
}

/// The error of an action that was run without anybody asking for its result, if it failed:
/// what is left to dispose of. A value that the action succeeded with is dropped.
pub fn unhandled<T, E>(outcome: Option<Result<T, E>>) -> (left: Option<E>)
    ensures
        left == match outcome {
            Some(Err(failure)) => Some(failure),
            _ => None,
        },
{
    match outcome {
        Some(Err(failure)) => Some(failure),
        _ => None,
    }
}

/// The holder of a guard's action. It is armed while the action is in it and resolved once
/// the action was taken out, and it never gets armed again.
#[verifier::reject_recursive_types(T)]
#[verifier::reject_recursive_types(E)]
#[verifier::reject_recursive_types(F)]
pub struct ActionSlot<T, E, F> where F: FnOnce() -> Result<T, E>, E: MaybeError {
    action: Option<F>,
    _result: PhantomData<(T, E)>,
}

impl<T, E, F> ActionSlot<T, E, F> where F: FnOnce() -> Result<T, E>, E: MaybeError {
    #[verifier::type_invariant]
    spec fn runnable(self) -> bool {
        self.action matches Some(action) ==> call_requires(action, ()) && keeps_flavor::<T, E, F>(
            action,
        )
    }

    /// The action that has not been run yet, if there is one.
    pub closed spec fn pending(&self) -> Option<F> {
        self.action
    }

    /// Whether the action is still to be run.
    pub open spec fn is_armed(&self) -> bool {
        self.pending() is Some
    }

    /// Whether `self` becomes `after` by having its action taken out, with `taken` as what
    /// was in it.
    pub open spec fn gives_up(self, after: Self, taken: Option<F>) -> bool {
        &&& taken == self.pending()
        &&& !after.is_armed()
    }

    /// Whether `self` becomes `after` by a trigger with `outcome`: the result of the action
    /// if there was one to run, nothing if there was none.
    pub open spec fn triggers(self, after: Self, outcome: Option<Result<T, E>>) -> bool {
        &&& match self.pending() {
            Some(action) => outcome matches Some(result) && call_ensures(action, (), result),
            None => outcome is None,
        }
        &&& !after.is_armed()
    }

    /// An armed slot that holds `action`.
    pub fn new(action: F) -> (slot: Self)
        requires
            call_requires(action, ()),
            keeps_flavor::<T, E, F>(action),
        ensures
            slot.pending() == Some(action),
    {
        ActionSlot { action: Some(action), _result: PhantomData }
    }

    /// Takes the action out without running it. The slot is resolved afterwards.
    pub fn take(&mut self) -> (taken: Option<F>)
        ensures
            old(self).gives_up(*final(self), taken),
            taken matches Some(action) ==> call_requires(action, ()) && keeps_flavor::<T, E, F>(
                action,
            ),
    {
        proof {
            use_type_invariant(&*self);
        }
        vacate(&mut self.action)
    }

    /// Runs the action if it is still pending, and hands back what it returned. The slot is
    /// resolved afterwards.
    pub fn trigger(&mut self) -> (outcome: Option<Result<T, E>>)
        ensures
            old(self).triggers(*final(self), outcome),
            !E::may_fail() ==> !(outcome matches Some(Err(_))),
    {
        match self.take() {
            Some(action) => Some(action()),
            None => None,
        }
    }

    /// What the slot does when the scope of its guard ends: it triggers, and hands back the
    /// error that is [`unhandled`] then, for the holder to dispose of. A value that the
    /// action succeeded with is dropped.
    pub fn release(&mut self) -> (left: Option<E>)
        ensures
            exists|outcome: Option<Result<T, E>>|
                #![trigger old(self).triggers(*final(self), outcome)]
                old(self).triggers(*final(self), outcome) && left == match outcome {
                    Some(Err(failure)) => Some(failure),
                    _ => None,
                },
            !E::may_fail() ==> left is None,
    {
        unhandled(self.trigger())
    }

    /// An armed slot runs its action exactly once, however often it is triggered: the first
    /// trigger runs the action and yields its result, and a trigger after that finds nothing
    /// to run.
    pub proof fn lemma_armed_slot_runs_once(
        self,
        fired: Self,
        first: Option<Result<T, E>>,
        spent: Self,
        second: Option<Result<T, E>>,
    )
        requires
            self.is_armed(),
            self.triggers(fired, first),
            fired.triggers(spent, second),
        ensures
            first matches Some(result) && call_ensures(self.pending()->0, (), result),
            second is None,
    {
    }

    /// A slot whose action was taken out runs nothing when it is triggered, as by the end of
    /// its scope: an action that was called off is never run, and one that was taken out to
    /// be run is not run a second time.
    pub proof fn lemma_resolved_slot_runs_nothing(
        self,
        resolved: Self,
        taken: Option<F>,
        spent: Self,
        outcome: Option<Result<T, E>>,
    )
        requires
            self.gives_up(resolved, taken),
            resolved.triggers(spent, outcome),
        ensures
            outcome is None,
            !spent.is_armed(),
    {
    }

    /// Of any number of armed slots, a trigger of one runs the action of that slot and
    /// leaves every other slot as it was, armed with its own action.
    pub proof fn lemma_trigger_leaves_other_slots_alone(
        slots: Seq<Self>,
        which: int,
        fired: Self,
        outcome: Option<Result<T, E>>,
    )
        requires
            0 <= which < slots.len(),
            forall|at: int| 0 <= at < slots.len() ==> (#[trigger] slots[at]).is_armed(),
            slots[which].triggers(fired, outcome),
        ensures
            outcome matches Some(result) && call_ensures(slots[which].pending()->0, (), result),
            !slots.update(which, fired)[which].is_armed(),
            forall|at: int|
                0 <= at < slots.len() && at != which ==> {
                    &&& (#[trigger] slots.update(which, fired)[at]) == slots[at]
                    &&& slots.update(which, fired)[at].is_armed()
                },
    {
    }

    /// Of any number of armed slots that have all been triggered, each has run its own action
    /// once, and none has anything left to run.
    pub proof fn lemma_every_slot_runs_its_own_action(
        slots: Seq<Self>,
        spent: Seq<Self>,
        outcomes: Seq<Option<Result<T, E>>>,
    )
        requires
            spent.len() == slots.len(),
            outcomes.len() == slots.len(),
            forall|at: int|
                0 <= at < slots.len() ==> {
                    &&& (#[trigger] slots[at]).is_armed()
                    &&& slots[at].triggers(spent[at], outcomes[at])
                },
        ensures
            forall|at: int|
                0 <= at < slots.len() ==> {
                    &&& (#[trigger] outcomes[at]) matches Some(result) && call_ensures(
                        slots[at].pending()->0,
                        (),
                        result,
                    )
                    &&& !spent[at].is_armed()
                    &&& forall|after: Self, again: Option<Result<T, E>>|
                        #[trigger] spent[at].triggers(after, again) ==> again is None
                },
    {
        assert forall|at: int| 0 <= at < slots.len() implies {
            &&& (#[trigger] outcomes[at]) matches Some(result) && call_ensures(
                slots[at].pending()->0,
                (),
                result,
            )
            &&& !spent[at].is_armed()
            &&& forall|after: Self, again: Option<Result<T, E>>|
                #[trigger] spent[at].triggers(after, again) ==> again is None
        } by {
            assert(slots[at].is_armed());
        }
    }
}

/// A rollback action that is to be run when a scope ends. See [`rollback`].
///
/// A guard is armed for as long as it exists: calling it off, running it, releasing it and
/// making it mandatory all take the guard itself. A guard that is dropped without any of
/// these runs nothing.
#[verifier::reject_recursive_types(T)]
#[verifier::reject_recursive_types(E)]
#[verifier::reject_recursive_types(F)]
pub struct RollbackGuard<T, E, F> where F: FnOnce() -> Result<T, E>, E: MaybeError {
    slot: ActionSlot<T, E, F>,
}

impl<T, E, F> RollbackGuard<T, E, F> where F: FnOnce() -> Result<T, E>, E: MaybeError {
    #[verifier::type_invariant]
    spec fn armed(self) -> bool {
        &&& self.slot.is_armed()
        &&& keeps_flavor::<T, E, F>(self.slot.pending()->0)
    }

    /// The action that the guard runs.
    pub closed spec fn action(&self) -> F {
        self.slot.pending()->0
    }

    /// Calls the rollback off: the action is taken out of the guard and set aside for good.
    /// It is not run, and neither it nor anything that it holds is dropped.
    pub fn ok(self) {
        let RollbackGuard { slot } = self;
        let mut slot = slot;
        let _ = ManuallyDrop::new(slot.take());
    }

    /// Runs the action now and hands back what it returned. With an error type that cannot
    /// fail, that is a success.
    pub fn do_rollback(self) -> (result: Result<T, E>)
        ensures
            call_ensures(self.action(), (), result),
            !E::may_fail() ==> result is Ok,
    {
        proof {
            use_type_invariant(&self);
        }
        let RollbackGuard { slot } = self;
        let mut slot = slot;
        match slot.trigger() {
            Some(result) => result,
            None => vstd::pervasive::unreached(),
        }
    }

    /// The scope of the guard has ended: runs the action and hands back the error that it
    /// failed with, for the holder to dispose of. A value that it succeeded with is dropped.
    /// With an error type that cannot fail, nothing is left.
    pub fn release(self) -> (left: Option<E>)
        ensures
            exists|result: Result<T, E>|
                #![trigger call_ensures(self.action(), (), result)]
                call_ensures(self.action(), (), result) && left == match result {
                    Err(failure) => Some(failure),
                    Ok(_) => None,
                },
            !E::may_fail() ==> left is None,
    {
        unhandled(Some(self.do_rollback()))
    }

    /// Gives up the means to call the rollback off: what is handed back runs the same action
    /// and has no `ok`. Forgetting that guard (`std::mem::forget`) still keeps the action
    /// from being run.
    pub fn mandatory(self) -> (guard: MandatoryRollbackGuard<T, E, F>)
        ensures
            guard.action() == self.action(),
    {
        MandatoryRollbackGuard(self)
    }
}

impl<T, E, F> Rollback for RollbackGuard<T, E, F> where F: FnOnce() -> Result<T, E>, E: MaybeError {
    type RollbackOk = T;

    type RollbackError = E;

    /// [`RollbackGuard::do_rollback`].
    fn do_rollback(self) -> (result: Result<T, E>)
        ensures
            call_ensures(self.action(), (), result),
            !E::may_fail() ==> result is Ok,
    {
        RollbackGuard::do_rollback(self)
    }
}

/// A rollback that cannot be called off. See [`RollbackGuard::mandatory`].
#[verifier::reject_recursive_types(T)]
#[verifier::reject_recursive_types(E)]
#[verifier::reject_recursive_types(F)]
pub struct MandatoryRollbackGuard<T, E, F>(RollbackGuard<T, E, F>) where
    F: FnOnce() -> Result<T, E>,
    E: MaybeError,
;

impl<T, E, F> MandatoryRollbackGuard<T, E, F> where F: FnOnce() -> Result<T, E>, E: MaybeError {
    /// The action that the guard runs.
    pub closed spec fn action(&self) -> F {
        self.0.action()
    }

    /// Runs the action now and hands back what it returned. With an error type that cannot
    /// fail, that is a success.
    pub fn do_rollback(self) -> (result: Result<T, E>)
        ensures
            call_ensures(self.action(), (), result),
            !E::may_fail() ==> result is Ok,
    {
        self.0.do_rollback()
    }

    /// The scope of the guard has ended: runs the action and hands back the error that it
    /// failed with, for the holder to dispose of. A value that it succeeded with is dropped.
    /// With an error type that cannot fail, nothing is left.
    pub fn release(self) -> (left: Option<E>)
        ensures
            exists|result: Result<T, E>|
                #![trigger call_ensures(self.action(), (), result)]
                call_ensures(self.action(), (), result) && left == match result {
                    Err(failure) => Some(failure),
                    Ok(_) => None,
                },
            !E::may_fail() ==> left is None,
    {
        unhandled(Some(self.do_rollback()))
    }
}

impl<T, E, F> Rollback for MandatoryRollbackGuard<T, E, F> where
    F: FnOnce() -> Result<T, E>,
    E: MaybeError,
 {
    type RollbackOk = T;

    type RollbackError = E;

    /// [`MandatoryRollbackGuard::do_rollback`].
    fn do_rollback(self) -> (result: Result<T, E>)
        ensures
            call_ensures(self.action(), (), result),
            !E::may_fail() ==> result is Ok,
    {
        MandatoryRollbackGuard::do_rollback(self)
    }
}

} // verus!
