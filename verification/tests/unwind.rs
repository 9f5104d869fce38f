use transaction_rollback::{
    settle, FaultBoundary, PanicError, PassThrough, Transaction, TransactionState,
    UnwindCheckedTransaction,
};

/// An error that remembers whether it came from an abort, and with what message.
#[derive(Debug, PartialEq, Eq, Clone)]
enum Failure {
    Returned(&'static str),
    Aborted(String),
}

impl From<PanicError> for Failure {
    fn from(error: PanicError) -> Self {
        match error.0.downcast_ref::<&'static str>() {
            Some(message) => Failure::Aborted(message.to_string()),
            None => Failure::Aborted("?".to_string()),
        }
    }
}

type State = TransactionState<Failure, u8, Failure, u8, Failure, Failure>;

fn aborted<T>(message: &'static str) -> Result<T, PanicError> {
    Err(PanicError(Box::new(message)))
}

#[test]
fn settle_keeps_the_result_of_a_step_that_returned() {
    assert_eq!(Ok(3), settle::<u8, Failure>(Ok(Ok(3))));
    assert_eq!(Err(Failure::Returned("e")), settle::<u8, Failure>(Ok(Err(Failure::Returned("e")))));
}

#[test]
fn settle_converts_an_abort() {
    assert_eq!(Err(Failure::Aborted("boom".to_string())), settle::<u8, Failure>(aborted("boom")));
    let payload = PanicError(Box::new(17u32));
    assert_eq!(Err(Failure::Aborted("?".to_string())), settle::<(), Failure>(Err(payload)));
}

/// A transaction with scripted results that records which steps were run, and with what.
struct Script {
    before: Result<(), Failure>,
    operation: Result<u8, Failure>,
    rollback: Result<u8, Failure>,
    finally: Result<(), Failure>,
    calls: Vec<String>,
}

impl Script {
    fn succeeding() -> Self {
        Script { before: Ok(()), operation: Ok(1), rollback: Ok(2), finally: Ok(()), calls: Vec::new() }
    }
}

impl Transaction for &mut Script {
    type BeforeError = Failure;
    type Success = u8;
    type Error = Failure;
    type RollbackOk = u8;
    type RollbackError = Failure;
    type FinallyError = Failure;

    fn before(&mut self) -> Result<(), Failure> {
        self.calls.push("before".to_string());
        self.before.clone()
    }

    fn operation(&mut self) -> Result<u8, Failure> {
        self.calls.push("operation".to_string());
        self.operation.clone()
    }

    fn rollback(&mut self, err_operation: &Failure) -> Result<u8, Failure> {
        self.calls.push(format!("rollback({:?})", err_operation));
        self.rollback.clone()
    }

    fn finally(&mut self, state: &State) -> Result<(), Failure> {
        self.calls.push(format!("finally({:?})", state));
        self.finally.clone()
    }
}

/// A fault boundary in which the steps named in it abort, with the message given, before
/// they have done anything. Every other step is run as it is.
#[derive(Default)]
struct Faults {
    before: Option<&'static str>,
    operation: Option<&'static str>,
    rollback: Option<&'static str>,
    finally: Option<&'static str>,
}

impl<'a> FaultBoundary<&'a mut Script> for Faults {
    fn before(&self, transaction: &mut &'a mut Script) -> Result<Result<(), Failure>, PanicError> {
        match self.before {
            Some(message) => aborted(message),
            None => Ok(transaction.before()),
        }
    }

    fn operation(&self, transaction: &mut &'a mut Script) -> Result<Result<u8, Failure>, PanicError> {
        match self.operation {
            Some(message) => aborted(message),
            None => Ok(transaction.operation()),
        }
    }

    fn rollback(
        &self,
        transaction: &mut &'a mut Script,
        err_operation: &Failure,
    ) -> Result<Result<u8, Failure>, PanicError> {
        match self.rollback {
            Some(message) => aborted(message),
            None => Ok(transaction.rollback(err_operation)),
        }
    }

    fn finally(
        &self,
        transaction: &mut &'a mut Script,
        state: &State,
    ) -> Result<Result<(), Failure>, PanicError> {
        match self.finally {
            Some(message) => aborted(message),
            None => Ok(transaction.finally(state)),
        }
    }
}

fn aborted_with(message: &str) -> Failure {
    Failure::Aborted(message.to_string())
}

#[test]
fn unwind_checked_run_without_faults_is_a_plain_run() {
    let mut script = Script::succeeding();
    assert_eq!(State::Success(1), (&mut script).execute_unwind_checked(&Faults::default()));
    assert_eq!(vec!["before", "operation", "finally(Success(1))"], script.calls);

    let mut script = Script { operation: Err(Failure::Returned("e")), ..Script::succeeding() };
    assert_eq!(
        State::Rollback(Failure::Returned("e"), Ok(2)),
        (&mut script).execute_unwind_checked(&Faults::default())
    );
    assert_eq!(
        vec![
            "before",
            "operation",
            "rollback(Returned(\"e\"))",
            "finally(Rollback(Returned(\"e\"), Ok(2)))"
        ],
        script.calls
    );

    let mut script = Script { before: Err(Failure::Returned("be")), ..Script::succeeding() };
    assert_eq!(
        State::FailedBefore(Failure::Returned("be")),
        (&mut script).execute_unwind_checked(&Faults::default())
    );
    assert_eq!(vec!["before"], script.calls);

    let mut script = Script { finally: Err(Failure::Returned("fe")), ..Script::succeeding() };
    assert_eq!(
        State::OkButFailedFinally(1, Failure::Returned("fe")),
        (&mut script).execute_unwind_checked(&Faults::default())
    );
}

#[test]
fn aborted_operation_is_rolled_back() {
    let mut script = Script::succeeding();
    let faults = Faults { operation: Some("boom"), ..Faults::default() };
    assert_eq!(
        State::Rollback(aborted_with("boom"), Ok(2)),
        (&mut script).execute_unwind_checked(&faults)
    );
    assert_eq!(
        vec!["before", "rollback(Aborted(\"boom\"))", "finally(Rollback(Aborted(\"boom\"), Ok(2)))"],
        script.calls
    );
}

#[test]
fn aborted_rollback_does_not_keep_finally_from_running() {
    let mut script = Script::succeeding();
    let faults = Faults { operation: Some("boom"), rollback: Some("bang"), ..Faults::default() };
    assert_eq!(
        State::Rollback(aborted_with("boom"), Err(aborted_with("bang"))),
        (&mut script).execute_unwind_checked(&faults)
    );
    assert_eq!(
        vec!["before", "finally(Rollback(Aborted(\"boom\"), Err(Aborted(\"bang\"))))"],
        script.calls
    );
}

#[test]
fn aborted_rollback_of_a_failed_operation() {
    let mut script = Script { operation: Err(Failure::Returned("e")), ..Script::succeeding() };
    let faults = Faults { rollback: Some("bang"), ..Faults::default() };
    assert_eq!(
        State::Rollback(Failure::Returned("e"), Err(aborted_with("bang"))),
        (&mut script).execute_unwind_checked(&faults)
    );
}

#[test]
fn aborted_finally_is_carried_in_the_state() {
    let mut script = Script::succeeding();
    let faults = Faults { finally: Some("late"), ..Faults::default() };
    assert_eq!(
        State::OkButFailedFinally(1, aborted_with("late")),
        (&mut script).execute_unwind_checked(&faults)
    );
    assert_eq!(vec!["before", "operation"], script.calls);

    let mut script = Script { operation: Err(Failure::Returned("e")), ..Script::succeeding() };
    assert_eq!(
        State::RollbackButFailedFinally(Failure::Returned("e"), Ok(2), aborted_with("late")),
        (&mut script).execute_unwind_checked(&faults)
    );
}

#[test]
fn aborted_before_ends_the_run() {
    let mut script = Script::succeeding();
    let faults = Faults { before: Some("early"), ..Faults::default() };
    assert_eq!(
        State::FailedBefore(aborted_with("early")),
        (&mut script).execute_unwind_checked(&faults)
    );
    assert!(script.calls.is_empty());
}

#[test]
fn every_step_can_abort_in_one_run() {
    let mut script = Script::succeeding();
    let faults = Faults { before: None, operation: Some("a"), rollback: Some("b"), finally: Some("c") };
    assert_eq!(
        State::RollbackButFailedFinally(aborted_with("a"), Err(aborted_with("b")), aborted_with("c")),
        (&mut script).execute_unwind_checked(&faults)
    );
    assert_eq!(vec!["before"], script.calls);
}

#[test]
fn run_that_catches_nothing_is_a_plain_run() {
    let scripts = [
        (Ok(()), Ok(1), Ok(2), Ok(())),
        (Err(Failure::Returned("be")), Ok(1), Ok(2), Ok(())),
        (Ok(()), Err(Failure::Returned("e")), Ok(2), Ok(())),
        (Ok(()), Err(Failure::Returned("e")), Err(Failure::Returned("re")), Ok(())),
        (Ok(()), Ok(1), Ok(2), Err(Failure::Returned("fe"))),
        (Ok(()), Err(Failure::Returned("e")), Ok(2), Err(Failure::Returned("fe"))),
        (Ok(()), Err(Failure::Returned("e")), Err(Failure::Returned("re")), Err(Failure::Returned("fe"))),
    ];
    for (before, operation, rollback, finally) in scripts {
        let mut plain = Script {
            before: before.clone(),
            operation: operation.clone(),
            rollback: rollback.clone(),
            finally: finally.clone(),
            calls: Vec::new(),
        };
        let mut checked = Script { before, operation, rollback, finally, calls: Vec::new() };
        assert_eq!((&mut plain).execute(), (&mut checked).execute_unwind_checked(&PassThrough));
        assert_eq!(plain.calls, checked.calls);
    }
}
