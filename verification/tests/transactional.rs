use meshestra::di::Container;
use meshestra::transactional::{
    begin_failure, completion_for, conclude, execute, execute_in, finalize, finalize_request,
    get_current_transaction, plan, settle, wrap,
    ActiveTransaction, Boundary, Completion, Entry, Finalization, Finalize, HandlerOutcome,
    InterceptError, IsolationLevel, Propagation, Role, Transaction, TransactionContext,
    TransactionManager, TransactionOptions, TransactionalInterceptor, Verdict,
};
use meshestra::MeshestraError;
use std::sync::{Arc, Mutex};

#[derive(Default)]
struct Ledger {
    begun: usize,
    commits: Vec<usize>,
    rollbacks: Vec<usize>,
    staged: Vec<(usize, String)>,
    stored: Vec<String>,
    options: Vec<TransactionOptions>,
}

struct RecordingTransaction {
    id: usize,
    ledger: Arc<Mutex<Ledger>>,
    fail_commit: bool,
    fail_rollback: bool,
}

impl Transaction for RecordingTransaction {
    fn commit(&mut self) -> Result<(), MeshestraError> {
        let mut ledger = self.ledger.lock().unwrap();
        ledger.commits.push(self.id);
        if self.fail_commit {
            ledger.staged.retain(|(id, _)| *id != self.id);
            return Err(MeshestraError::Internal("disk full".to_string()));
        }
        let mine: Vec<String> = ledger
            .staged
            .iter()
            .filter(|(id, _)| *id == self.id)
            .map(|(_, row)| row.clone())
            .collect();
        ledger.staged.retain(|(id, _)| *id != self.id);
        ledger.stored.extend(mine);
        Ok(())
    }

    fn rollback(&mut self) -> Result<(), MeshestraError> {
        let mut ledger = self.ledger.lock().unwrap();
        ledger.rollbacks.push(self.id);
        ledger.staged.retain(|(id, _)| *id != self.id);
        if self.fail_rollback {
            return Err(MeshestraError::Internal("connection lost".to_string()));
        }
        Ok(())
    }
}

struct RecordingManager {
    ledger: Arc<Mutex<Ledger>>,
    refuse: bool,
    fail_commit: bool,
    fail_rollback: bool,
}

impl RecordingManager {
    fn new(ledger: &Arc<Mutex<Ledger>>) -> Self {
        RecordingManager {
            ledger: Arc::clone(ledger),
            refuse: false,
            fail_commit: false,
            fail_rollback: false,
        }
    }
}

impl TransactionManager for RecordingManager {
    fn begin(&self, options: TransactionOptions) -> Result<Box<dyn Transaction>, MeshestraError> {
        if self.refuse {
            return Err(MeshestraError::Internal("pool exhausted".to_string()));
        }
        let mut ledger = self.ledger.lock().unwrap();
        ledger.begun += 1;
        ledger.options.push(options);
        Ok(Box::new(RecordingTransaction {
            id: ledger.begun,
            ledger: Arc::clone(&self.ledger),
            fail_commit: self.fail_commit,
            fail_rollback: self.fail_rollback,
        }))
    }
}

fn write(ledger: &Arc<Mutex<Ledger>>, row: &str) {
    let mut ledger = ledger.lock().unwrap();
    let id = ledger.begun;
    ledger.staged.push((id, row.to_string()));
}

fn required() -> TransactionOptions {
    TransactionOptions::default()
}

fn with_mode(propagation: Propagation) -> TransactionOptions {
    TransactionOptions { propagation, ..TransactionOptions::default() }
}

#[test]
fn default_options_are_required_read_write() {
    let options = TransactionOptions::default();
    assert_eq!(options.isolation, None);
    assert_eq!(options.propagation, Propagation::Required);
    assert!(!options.read_only);
}

#[test]
fn options_from_parts_fill_in_what_is_not_set() {
    assert_eq!(TransactionOptions::from_parts(None, None, None), TransactionOptions::default());
    let set = TransactionOptions::from_parts(
        Some(IsolationLevel::Serializable),
        Some(Propagation::RequiresNew),
        Some(true),
    );
    assert_eq!(set.isolation, Some(IsolationLevel::Serializable));
    assert_eq!(set.propagation, Propagation::RequiresNew);
    assert!(set.read_only);
}

#[test]
fn plan_covers_every_mode() {
    assert_eq!(plan(Propagation::Required, false), Ok(Role::Owner));
    assert_eq!(plan(Propagation::Required, true), Ok(Role::Participant));
    assert_eq!(plan(Propagation::RequiresNew, false), Ok(Role::Owner));
    assert_eq!(plan(Propagation::RequiresNew, true), Ok(Role::Owner));
    assert_eq!(plan(Propagation::Supports, false), Ok(Role::Participant));
    assert_eq!(plan(Propagation::Supports, true), Ok(Role::Participant));
    assert_eq!(plan(Propagation::Mandatory, true), Ok(Role::Participant));
    assert_eq!(plan(Propagation::Never, false), Ok(Role::Participant));
    assert_eq!(plan(Propagation::NotSupported, false), Ok(Role::Participant));
    assert_eq!(plan(Propagation::NotSupported, true), Ok(Role::Detached));
    assert_eq!(
        plan(Propagation::Mandatory, false),
        Err(MeshestraError::ScopeMismatch {
            message: "Propagation::Mandatory requires an active transaction".to_string()
        })
    );
    assert_eq!(
        plan(Propagation::Never, true),
        Err(MeshestraError::ScopeMismatch {
            message: "Propagation::Never forbids an active transaction".to_string()
        })
    );
    let nested = Err(MeshestraError::Internal("Unsupported propagation mode: Nested".to_string()));
    assert_eq!(plan(Propagation::Nested, false), nested);
    assert_eq!(plan(Propagation::Nested, true), nested);
}

#[test]
fn context_binds_and_restores() {
    let mut context: TransactionContext<u32> = TransactionContext::new();
    assert_eq!(context.depth(), 0);
    assert!(!context.is_active());
    assert_eq!(get_current_transaction(&context), None);
    context.bind(Some(7));
    assert_eq!(context.current(), Some(&7));
    context.bind(None);
    assert!(!context.is_active());
    context.bind(Some(9));
    assert_eq!(get_current_transaction(&context), Some(&9));
    assert_eq!(context.depth(), 3);
    assert_eq!(context.unbind(), Some(Some(9)));
    context.bind(Some(11));
    context.restore(5);
    assert_eq!(context.depth(), 3);
    context.restore(1);
    assert_eq!(context.depth(), 1);
    assert_eq!(context.current(), Some(&7));
    assert_eq!(context.unbind(), Some(Some(7)));
    assert_eq!(context.unbind(), None);
    assert_eq!(context.current(), None);
}

#[test]
fn owner_publishes_for_its_extent_only() {
    let mut context: TransactionContext<&'static str> = TransactionContext::new();
    let pending = match Boundary::enter(&mut context, &required()) {
        Ok(Entry::Begin(pending)) => pending,
        _ => panic!("a required boundary without ambient transaction must begin one"),
    };
    assert_eq!(pending.begin_options(), required());
    assert_eq!(context.current(), None);
    let boundary = pending.opened(&mut context, "tx-1");
    assert_eq!(boundary.part(), Role::Owner);
    assert_eq!(context.current(), Some(&"tx-1"));
    let inner = match Boundary::enter(&mut context, &required()) {
        Ok(Entry::Ready(inner)) => inner,
        _ => panic!("a required boundary inside a transaction must join it"),
    };
    assert_eq!(inner.part(), Role::Participant);
    assert_eq!(context.current(), Some(&"tx-1"));
    assert!(matches!(inner.complete(&mut context, Completion::Failed), Finalize::Nothing));
    assert_eq!(context.current(), Some(&"tx-1"));
    match boundary.complete(&mut context, Completion::Succeeded) {
        Finalize::Commit(handle) => assert_eq!(handle, "tx-1"),
        _ => panic!("a successful owner must ask for a commit"),
    }
    assert_eq!(context.current(), None);
    assert_eq!(context.depth(), 0);
}

#[test]
fn requires_new_suspends_and_resumes_the_outer_transaction() {
    let mut context: TransactionContext<u8> = TransactionContext::new();
    context.bind(Some(1));
    let pending = match Boundary::enter(&mut context, &with_mode(Propagation::RequiresNew)) {
        Ok(Entry::Begin(pending)) => pending,
        _ => panic!("requires-new must begin a transaction"),
    };
    let inner = pending.opened(&mut context, 2);
    assert_eq!(context.current(), Some(&2));
    match inner.complete(&mut context, Completion::Failed) {
        Finalize::Rollback(handle) => assert_eq!(handle, 2),
        _ => panic!("a failed owner must ask for a rollback"),
    }
    assert_eq!(context.current(), Some(&1));
    assert_eq!(context.depth(), 1);
}

#[test]
fn cancelled_owner_rolls_back() {
    let mut context: TransactionContext<u8> = TransactionContext::new();
    let pending = match Boundary::enter(&mut context, &required()) {
        Ok(Entry::Begin(pending)) => pending,
        _ => panic!("must begin"),
    };
    let boundary = pending.opened(&mut context, 4);
    context.bind(Some(5));
    match boundary.complete(&mut context, Completion::Cancelled) {
        Finalize::Rollback(handle) => assert_eq!(handle, 4),
        _ => panic!("a cancelled owner must ask for a rollback"),
    }
    assert_eq!(context.depth(), 0);
}

#[test]
fn not_supported_runs_with_an_empty_slot() {
    let mut context: TransactionContext<u8> = TransactionContext::new();
    context.bind(Some(1));
    let boundary = match Boundary::enter(&mut context, &with_mode(Propagation::NotSupported)) {
        Ok(Entry::Ready(boundary)) => boundary,
        _ => panic!("not-supported must run"),
    };
    assert_eq!(boundary.part(), Role::Detached);
    assert_eq!(context.current(), None);
    assert!(matches!(boundary.complete(&mut context, Completion::Succeeded), Finalize::Nothing));
    assert_eq!(context.current(), Some(&1));
}

#[test]
fn refused_boundary_leaves_the_context_alone() {
    let mut context: TransactionContext<u8> = TransactionContext::new();
    assert!(matches!(
        Boundary::enter(&mut context, &with_mode(Propagation::Mandatory)),
        Err(MeshestraError::ScopeMismatch { .. })
    ));
    assert_eq!(context.depth(), 0);
    context.bind(Some(3));
    assert!(matches!(
        Boundary::enter(&mut context, &with_mode(Propagation::Never)),
        Err(MeshestraError::ScopeMismatch { .. })
    ));
    assert!(matches!(
        Boundary::enter(&mut context, &with_mode(Propagation::Nested)),
        Err(MeshestraError::Internal(_))
    ));
    assert_eq!(context.depth(), 1);
    assert_eq!(context.current(), Some(&3));
}

#[test]
fn failed_begin_is_an_internal_error_with_the_cause() {
    let mut context: TransactionContext<u8> = TransactionContext::new();
    let pending = match Boundary::enter(&mut context, &required()) {
        Ok(Entry::Begin(pending)) => pending,
        _ => panic!("must begin"),
    };
    let cause = MeshestraError::Internal("pool exhausted".to_string());
    assert_eq!(
        pending.failed(&cause),
        MeshestraError::Internal("Internal error: pool exhausted".to_string())
    );
}

#[test]
fn conclude_keeps_the_failure_of_the_operation() {
    let failure = MeshestraError::DependencyNotFound { name: "Repo".to_string() };
    let rollback_failed = Some(Err(MeshestraError::Internal("connection lost".to_string())));
    assert_eq!(conclude::<u8>(Err(failure.clone()), rollback_failed), Err(failure.clone()));
    assert_eq!(conclude::<u8>(Err(failure.clone()), Some(Ok(()))), Err(failure.clone()));
    assert_eq!(conclude::<u8>(Err(failure.clone()), None), Err(failure));
    assert_eq!(conclude(Ok(5), None), Ok(5));
    assert_eq!(conclude(Ok(5), Some(Ok(()))), Ok(5));
    assert_eq!(
        conclude(Ok(5), Some(Err(MeshestraError::Internal("disk full".to_string())))),
        Err(MeshestraError::Internal(
            "Failed to commit transaction: Internal error: disk full".to_string()
        ))
    );
}

#[test]
fn commit_twice_is_an_error_rollback_twice_is_not() {
    let ledger = Arc::new(Mutex::new(Ledger::default()));
    let manager = RecordingManager::new(&ledger);
    let mut first = ActiveTransaction::new(manager.begin(required()).unwrap());
    assert_eq!(first.finalization(), Finalization::Open);
    assert!(!first.is_finalized());
    assert_eq!(first.commit(), Ok(()));
    assert_eq!(first.finalization(), Finalization::Committed);
    assert_eq!(
        first.commit(),
        Err(MeshestraError::Internal(
            "Attempted to commit a transaction that has already been finalized.".to_string()
        ))
    );
    assert_eq!(first.rollback(), Ok(()));
    assert_eq!(first.finalization(), Finalization::Committed);

    let mut second = ActiveTransaction::new(manager.begin(required()).unwrap());
    assert_eq!(second.rollback(), Ok(()));
    assert_eq!(second.rollback(), Ok(()));
    assert_eq!(second.finalization(), Finalization::RolledBack);
    assert!(second.is_finalized());
    assert!(second.commit().is_err());

    let ledger = ledger.lock().unwrap();
    assert_eq!(ledger.commits, vec![1]);
    assert_eq!(ledger.rollbacks, vec![2]);
}

#[test]
fn success_commits_once_and_never_rolls_back() {
    let ledger = Arc::new(Mutex::new(Ledger::default()));
    let manager = RecordingManager::new(&ledger);
    let mut context = TransactionContext::new();
    let seen = Arc::clone(&ledger);
    let outcome = execute(&mut context, &manager, &required(), move |scope| {
        assert!(scope.is_active());
        assert_eq!(scope.current().unwrap().finalization(), Finalization::Open);
        write(&seen, "alice");
        Ok::<_, MeshestraError>(17)
    });
    assert_eq!(outcome, Ok(17));
    assert!(!context.is_active());
    assert_eq!(context.depth(), 0);
    let ledger = ledger.lock().unwrap();
    assert_eq!(ledger.begun, 1);
    assert_eq!(ledger.commits, vec![1]);
    assert!(ledger.rollbacks.is_empty());
    assert_eq!(ledger.stored, vec!["alice".to_string()]);
    assert_eq!(ledger.options, vec![TransactionOptions::default()]);
}

#[test]
fn logical_failure_rolls_back_and_nothing_is_stored() {
    let ledger = Arc::new(Mutex::new(Ledger::default()));
    let manager = RecordingManager::new(&ledger);
    let mut context = TransactionContext::new();
    let seen = Arc::clone(&ledger);
    let outcome: Result<(), MeshestraError> =
        execute(&mut context, &manager, &required(), move |_scope| {
            write(&seen, "bob");
            Err(MeshestraError::Internal("Simulated Failure for Rollback Test".to_string()))
        });
    assert_eq!(
        outcome,
        Err(MeshestraError::Internal("Simulated Failure for Rollback Test".to_string()))
    );
    assert!(!context.is_active());
    let ledger = ledger.lock().unwrap();
    assert_eq!(ledger.rollbacks, vec![1]);
    assert!(ledger.commits.is_empty());
    assert!(ledger.stored.is_empty());
    assert!(ledger.staged.is_empty());
}

#[test]
fn failing_rollback_does_not_mask_the_failure() {
    let ledger = Arc::new(Mutex::new(Ledger::default()));
    let mut manager = RecordingManager::new(&ledger);
    manager.fail_rollback = true;
    let mut context = TransactionContext::new();
    let outcome: Result<(), MeshestraError> =
        execute(&mut context, &manager, &required(), |_scope| {
            Err(MeshestraError::DowncastFailed { name: "Row".to_string() })
        });
    assert_eq!(outcome, Err(MeshestraError::DowncastFailed { name: "Row".to_string() }));
    assert_eq!(ledger.lock().unwrap().rollbacks, vec![1]);
}

#[test]
fn failing_commit_fails_the_boundary() {
    let ledger = Arc::new(Mutex::new(Ledger::default()));
    let mut manager = RecordingManager::new(&ledger);
    manager.fail_commit = true;
    let mut context = TransactionContext::new();
    let outcome = execute(&mut context, &manager, &required(), |_scope| Ok::<_, MeshestraError>(1));
    assert_eq!(
        outcome,
        Err(MeshestraError::Internal(
            "Failed to commit transaction: Internal error: disk full".to_string()
        ))
    );
    let ledger = ledger.lock().unwrap();
    assert_eq!(ledger.commits, vec![1]);
    assert!(ledger.rollbacks.is_empty());
}

#[test]
fn refused_begin_runs_nothing() {
    let ledger = Arc::new(Mutex::new(Ledger::default()));
    let mut manager = RecordingManager::new(&ledger);
    manager.refuse = true;
    let mut context = TransactionContext::new();
    let ran = Arc::new(Mutex::new(false));
    let flag = Arc::clone(&ran);
    let outcome = execute(&mut context, &manager, &required(), move |_scope| {
        *flag.lock().unwrap() = true;
        Ok::<_, MeshestraError>(())
    });
    assert_eq!(
        outcome,
        Err(MeshestraError::Internal("Internal error: pool exhausted".to_string()))
    );
    assert!(!*ran.lock().unwrap());
    assert_eq!(context.depth(), 0);
}

#[test]
fn nested_required_joins_and_one_commit_finalizes_both() {
    let ledger = Arc::new(Mutex::new(Ledger::default()));
    let manager = RecordingManager::new(&ledger);
    let mut context = TransactionContext::new();
    let outer_ledger = Arc::clone(&ledger);
    let outcome = execute(&mut context, &manager, &required(), |scope| {
        write(&outer_ledger, "f");
        let inner_ledger = Arc::clone(&outer_ledger);
        let inner = execute(scope, &manager, &required(), move |nested| {
            assert!(nested.is_active());
            assert_eq!(nested.depth(), 1);
            write(&inner_ledger, "g");
            Ok::<_, MeshestraError>(2)
        })?;
        assert_eq!(outer_ledger.lock().unwrap().begun, 1);
        assert!(outer_ledger.lock().unwrap().commits.is_empty());
        assert!(scope.is_active());
        Ok::<_, MeshestraError>(inner + 1)
    });
    assert_eq!(outcome, Ok(3));
    let ledger = ledger.lock().unwrap();
    assert_eq!(ledger.begun, 1);
    assert_eq!(ledger.commits, vec![1]);
    assert!(ledger.rollbacks.is_empty());
    assert_eq!(ledger.stored, vec!["f".to_string(), "g".to_string()]);
}

#[test]
fn requires_new_finalizes_independently_of_the_outer_transaction() {
    let ledger = Arc::new(Mutex::new(Ledger::default()));
    let manager = RecordingManager::new(&ledger);
    let mut context = TransactionContext::new();
    let outer_ledger = Arc::clone(&ledger);
    let outcome = execute(&mut context, &manager, &required(), |scope| {
        write(&outer_ledger, "outer");
        let inner_ledger = Arc::clone(&outer_ledger);
        let inner: Result<(), MeshestraError> =
            execute(scope, &manager, &with_mode(Propagation::RequiresNew), move |nested| {
                assert_eq!(nested.depth(), 2);
                write(&inner_ledger, "inner");
                Err(MeshestraError::Internal("inner failed".to_string()))
            });
        assert!(inner.is_err());
        assert_eq!(scope.depth(), 1);
        assert_eq!(outer_ledger.lock().unwrap().rollbacks, vec![2]);
        Ok::<_, MeshestraError>(())
    });
    assert_eq!(outcome, Ok(()));
    let ledger = ledger.lock().unwrap();
    assert_eq!(ledger.begun, 2);
    assert_eq!(ledger.rollbacks, vec![2]);
    assert_eq!(ledger.commits, vec![1]);
    assert_eq!(ledger.stored, vec!["outer".to_string()]);
}

#[test]
fn modes_without_a_transaction_begin_none() {
    let ledger = Arc::new(Mutex::new(Ledger::default()));
    let manager = RecordingManager::new(&ledger);
    let mut context = TransactionContext::new();
    for mode in [Propagation::Supports, Propagation::Never, Propagation::NotSupported] {
        let outcome = execute(&mut context, &manager, &with_mode(mode), |scope| {
            assert!(!scope.is_active());
            Ok::<_, MeshestraError>(())
        });
        assert_eq!(outcome, Ok(()));
    }
    let refused: Result<(), MeshestraError> =
        execute(&mut context, &manager, &with_mode(Propagation::Mandatory), |_scope| Ok(()));
    assert!(matches!(refused, Err(MeshestraError::ScopeMismatch { .. })));
    assert_eq!(ledger.lock().unwrap().begun, 0);
}

#[test]
fn finalize_applies_what_was_asked() {
    let ledger = Arc::new(Mutex::new(Ledger::default()));
    let manager = RecordingManager::new(&ledger);
    assert_eq!(finalize::<dyn Transaction>(Finalize::Nothing), None);
    let one = ActiveTransaction::new(manager.begin(required()).unwrap());
    assert_eq!(finalize(Finalize::Commit(one)), Some(Ok(())));
    let two = ActiveTransaction::new(manager.begin(required()).unwrap());
    assert_eq!(finalize(Finalize::Rollback(two)), Some(Ok(())));
    let ledger = ledger.lock().unwrap();
    assert_eq!(ledger.commits, vec![1]);
    assert_eq!(ledger.rollbacks, vec![2]);
}

#[test]
fn interceptor_commits_unless_the_server_failed() {
    assert_eq!(HandlerOutcome::Responded(200).verdict(), Verdict::Commit);
    assert_eq!(HandlerOutcome::Responded(204).verdict(), Verdict::Commit);
    assert_eq!(HandlerOutcome::Responded(302).verdict(), Verdict::Commit);
    assert_eq!(HandlerOutcome::Responded(404).verdict(), Verdict::Commit);
    assert_eq!(HandlerOutcome::Responded(499).verdict(), Verdict::Commit);
    assert_eq!(HandlerOutcome::Responded(500).verdict(), Verdict::Rollback);
    assert_eq!(HandlerOutcome::Responded(503).verdict(), Verdict::Rollback);
    assert_eq!(HandlerOutcome::Responded(599).verdict(), Verdict::Rollback);
    assert_eq!(HandlerOutcome::Responded(600).verdict(), Verdict::Commit);
    assert_eq!(HandlerOutcome::Failed.verdict(), Verdict::Rollback);
}

#[test]
fn interceptor_begins_finalizes_and_settles() {
    let ledger = Arc::new(Mutex::new(Ledger::default()));
    let manager: Arc<dyn TransactionManager> = Arc::new(RecordingManager::new(&ledger));
    let interceptor = TransactionalInterceptor::new(manager);
    let mut first = interceptor.begin().unwrap();
    assert_eq!(finalize_request(&mut first, HandlerOutcome::Responded(201)), Ok(()));
    assert_eq!(first.finalization(), Finalization::Committed);
    let mut second = interceptor.begin().unwrap();
    assert_eq!(finalize_request(&mut second, HandlerOutcome::Responded(500)), Ok(()));
    assert_eq!(second.finalization(), Finalization::RolledBack);
    let mut third = interceptor.shared_manager().begin(required()).map(ActiveTransaction::new).unwrap();
    assert_eq!(finalize_request(&mut third, HandlerOutcome::Failed), Ok(()));
    {
        let ledger = ledger.lock().unwrap();
        assert_eq!(ledger.commits, vec![1]);
        assert_eq!(ledger.rollbacks, vec![2, 3]);
    }

    let cause = MeshestraError::Internal("disk full".to_string());
    assert!(matches!(settle::<u16, &str>(Ok(200), Ok(())), Ok(200)));
    assert!(matches!(
        settle::<u16, &str>(Ok(200), Err(cause.clone())),
        Err(InterceptError::Transaction(MeshestraError::Internal(_)))
    ));
    assert!(matches!(
        settle::<u16, &str>(Err("boom"), Err(cause)),
        Err(InterceptError::Handler("boom"))
    ));
    assert!(matches!(settle::<u16, &str>(Err("boom"), Ok(())), Err(InterceptError::Handler("boom"))));
}

#[test]
fn boundary_resolves_its_manager_from_the_container() {
    let ledger = Arc::new(Mutex::new(Ledger::default()));
    let mut container = Container::new();
    container.register(RecordingManager::new(&ledger));
    container.register_trait::<dyn TransactionManager, RecordingManager, _>(|manager| {
        manager as Arc<dyn TransactionManager>
    });
    let mut context = TransactionContext::new();
    let seen = Arc::clone(&ledger);
    let outcome = execute_in(&container, &mut context, &required(), |scope| {
        write(&seen, "row");
        execute_in(&container, scope, &required(), |nested| {
            assert!(nested.is_active());
            Ok::<_, MeshestraError>(())
        })
    });
    assert_eq!(outcome, Ok(()));
    assert_eq!(context.depth(), 0);
    let ledger = ledger.lock().unwrap();
    assert_eq!(ledger.begun, 1);
    assert_eq!(ledger.commits, vec![1]);
    assert_eq!(ledger.stored, vec!["row".to_string()]);
}

#[test]
fn boundary_without_manager_fails_only_where_it_has_to_begin() {
    let container = Container::new();
    let mut context = TransactionContext::new();
    let ran = Arc::new(Mutex::new(0));
    let count = Arc::clone(&ran);
    let missing: Result<(), MeshestraError> =
        execute_in(&container, &mut context, &required(), move |_scope| {
            *count.lock().unwrap() += 1;
            Ok(())
        });
    assert_eq!(
        missing,
        Err(MeshestraError::DependencyNotFound { name: "Unknown Trait".to_string() })
    );
    assert_eq!(*ran.lock().unwrap(), 0);
    assert_eq!(context.depth(), 0);

    let count = Arc::clone(&ran);
    let supported = execute_in(&container, &mut context, &with_mode(Propagation::Supports), |_| {
        *count.lock().unwrap() += 1;
        Ok::<_, MeshestraError>(5)
    });
    assert_eq!(supported, Ok(5));
    assert_eq!(*ran.lock().unwrap(), 1);
}

#[test]
fn completion_and_begin_failure_read_off_their_inputs() {
    assert_eq!(completion_for::<u8>(&Ok(1)), Completion::Succeeded);
    assert_eq!(
        completion_for::<u8>(&Err(MeshestraError::Internal("x".to_string()))),
        Completion::Failed
    );
    assert_eq!(
        begin_failure(&MeshestraError::DependencyNotFound { name: "Pool".to_string() }),
        MeshestraError::Internal("Dependency not found: Pool".to_string())
    );
    assert_eq!(
        Finalization::Open.on_commit(),
        Ok(Finalization::Committed)
    );
    assert!(Finalization::Committed.on_commit().is_err());
    assert!(Finalization::RolledBack.on_commit().is_err());
    assert_eq!(Finalization::Open.on_rollback(), Some(Finalization::RolledBack));
    assert_eq!(Finalization::Committed.on_rollback(), None);
    assert_eq!(Finalization::RolledBack.on_rollback(), None);
}

#[test]
fn wrap_opens_a_handle_or_hands_the_refusal_back() {
    let ledger = Arc::new(Mutex::new(Ledger::default()));
    let manager = RecordingManager::new(&ledger);
    let mut handle = wrap(manager.begin(required())).ok().unwrap();
    assert_eq!(handle.finalization(), Finalization::Open);
    assert_eq!(handle.commit(), Ok(()));
    assert_eq!(ledger.lock().unwrap().commits, vec![1]);

    let refused: Result<Box<dyn Transaction>, MeshestraError> =
        Err(MeshestraError::Internal("pool exhausted".to_string()));
    assert_eq!(
        wrap(refused).err(),
        Some(MeshestraError::Internal("pool exhausted".to_string()))
    );

    let mut refusing = RecordingManager::new(&ledger);
    refusing.refuse = true;
    let shared: Arc<dyn TransactionManager> = Arc::new(refusing);
    assert_eq!(
        TransactionalInterceptor::new(shared).begin().err(),
        Some(MeshestraError::Internal("pool exhausted".to_string()))
    );
}

#[test]
fn interceptor_wraps_the_handling_in_a_transaction() {
    let ledger = Arc::new(Mutex::new(Ledger::default()));
    let shared: Arc<dyn TransactionManager> = Arc::new(RecordingManager::new(&ledger));
    let interceptor = TransactionalInterceptor::new(shared);
    let status = |response: &u16| *response;

    let answered = interceptor.intercept(
        |handle: &mut ActiveTransaction| {
            assert_eq!(handle.finalization(), Finalization::Open);
            Ok::<u16, String>(201)
        },
        status,
    );
    assert!(matches!(answered, Ok(201)));
    let client_error = interceptor.intercept(|_: &mut ActiveTransaction| Ok::<u16, String>(404), status);
    assert!(matches!(client_error, Ok(404)));
    let server_error = interceptor.intercept(|_: &mut ActiveTransaction| Ok::<u16, String>(503), status);
    assert!(matches!(server_error, Ok(503)));
    let failed = interceptor
        .intercept(|_: &mut ActiveTransaction| Err::<u16, String>("boom".to_string()), status);
    assert!(matches!(failed, Err(InterceptError::Handler(ref text)) if text == "boom"));
    {
        let ledger = ledger.lock().unwrap();
        assert_eq!(ledger.begun, 4);
        assert_eq!(ledger.commits, vec![1, 2]);
        assert_eq!(ledger.rollbacks, vec![3, 4]);
    }

    let committed_twice = interceptor.intercept(
        |handle: &mut ActiveTransaction| {
            assert_eq!(handle.commit(), Ok(()));
            Ok::<u16, String>(200)
        },
        status,
    );
    assert!(matches!(
        committed_twice,
        Err(InterceptError::Transaction(MeshestraError::Internal(ref text)))
            if text == "Attempted to commit a transaction that has already been finalized."
    ));
    let rolled_back_twice = interceptor.intercept(
        |handle: &mut ActiveTransaction| {
            assert_eq!(handle.rollback(), Ok(()));
            Err::<u16, String>("gave up".to_string())
        },
        status,
    );
    assert!(matches!(rolled_back_twice, Err(InterceptError::Handler(ref text)) if text == "gave up"));
    let ledger = ledger.lock().unwrap();
    assert_eq!(ledger.commits, vec![1, 2, 5]);
    assert_eq!(ledger.rollbacks, vec![3, 4, 6]);
}

#[test]
fn interceptor_without_a_transaction_runs_nothing() {
    let ledger = Arc::new(Mutex::new(Ledger::default()));
    let mut refusing = RecordingManager::new(&ledger);
    refusing.refuse = true;
    let shared: Arc<dyn TransactionManager> = Arc::new(refusing);
    let ran = Arc::new(Mutex::new(false));
    let flag = Arc::clone(&ran);
    let outcome = TransactionalInterceptor::new(shared).intercept(
        move |_: &mut ActiveTransaction| {
            *flag.lock().unwrap() = true;
            Ok::<u16, String>(200)
        },
        |response: &u16| *response,
    );
    assert!(matches!(
        outcome,
        Err(InterceptError::Transaction(MeshestraError::Internal(ref text))) if text == "pool exhausted"
    ));
    assert!(!*ran.lock().unwrap());
}

#[test]
fn completion_says_whether_an_owner_commits() {
    assert!(Completion::Succeeded.commits());
    assert!(!Completion::Failed.commits());
    assert!(!Completion::Cancelled.commits());
}
