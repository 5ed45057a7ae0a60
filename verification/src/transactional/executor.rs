//! Running an operation inside a boundary, with collaborators that answer
//! at once.

use crate::di::container::Container;
use crate::di::identity::TypeKey;
use crate::error::MeshestraError;
use crate::transactional::boundary::{
    admission, begin_failure_spec, completed, conclude, concluded, refusal, Boundary, Completion,
    Entry, Finalize, PendingBegin, Role,
};
use std::sync::Arc;
use crate::transactional::context::{ambient_of, TransactionContext};
use crate::transactional::handle::{
    ActiveTransaction, Finalization, Transaction, TransactionManager,
};
use crate::transactional::options::TransactionOptions;
use vstd::prelude::*;

verus! {

/// The completion that stands for the result of an operation.
pub open spec fn completion_of<T>(result: Result<T, MeshestraError>) -> Completion {
    if result is Ok {
        Completion::Succeeded
    } else {
        Completion::Failed
    }
}

/// How the operation of a boundary ended, read off its result.
pub fn completion_for<T>(result: &Result<T, MeshestraError>) -> (completion: Completion)
    ensures
        completion == completion_of(*result),
{
    match result {
        Ok(_) => Completion::Succeeded,
        Err(_) => Completion::Failed,
    }
}

/// Whether `finalized` is what carrying out `request` gives: nothing where
/// nothing is asked, and what the commit or the rollback of the handle
/// returns where one is asked.
pub open spec fn finalized_by<X: Transaction + ?Sized>(
    request: Finalize<ActiveTransaction<X>>,
    finalized: Option<Result<(), MeshestraError>>,
) -> bool {
    match request {
        Finalize::Nothing => finalized is None,
        Finalize::Commit(handle) => finalized matches Some(result) && handle.commits_with(result),
        Finalize::Rollback(handle) => finalized matches Some(result) && handle.rolls_back_with(
            result,
        ),
    }
}

/// Carries out what a completed boundary asks for: commits or rolls back
/// the transaction it hands over, and returns what that gave; `None` where
/// nothing was asked. A handle that is finalized already is not reached
/// again: its commit is the error of a second finalization, its rollback a
/// success.
pub fn finalize<X: Transaction + ?Sized>(request: Finalize<ActiveTransaction<X>>) -> (finalized:
    Option<Result<(), MeshestraError>>)
    ensures
        finalized_by(request, finalized),
        request is Nothing <==> finalized is None,
{
    match request {
        Finalize::Nothing => None,
        Finalize::Commit(handle) => {
            let mut handle = handle;
            Some(handle.commit())
        },
        Finalize::Rollback(handle) => {
            let mut handle = handle;
            Some(handle.rollback())
        },
    }
}

/// Whether `outcome` and the bindings `after` are what a boundary with the
/// given part and base gives once its operation has returned `result` and
/// left the bindings `left`: the boundary completes on what was left, what
/// it asks for is carried out, and `conclude` combines the two results.
pub open spec fn boundary_ran<X: Transaction + ?Sized, T>(
    role: Role,
    base: nat,
    left: Seq<Option<ActiveTransaction<X>>>,
    result: Result<T, MeshestraError>,
    outcome: Result<T, MeshestraError>,
    after: Seq<Option<ActiveTransaction<X>>>,
) -> bool {
    &&& after == completed(role, base, left, completion_of(result)).0
    &&& exists|finalized: Option<Result<(), MeshestraError>>| #[trigger]
        finalized_by(completed(role, base, left, completion_of(result)).1, finalized)
            && concluded(result, finalized, outcome)
}

/// What the operation of a boundary finds in the context, given the part of
/// the boundary and the bindings on entry: a participant finds them as they
/// were; a detached boundary finds an empty slot bound above them; an owner
/// finds its own transaction bound above them, open.
pub open spec fn scope_of<X: Transaction + ?Sized>(
    role: Role,
    before: Seq<Option<ActiveTransaction<X>>>,
    scope: Seq<Option<ActiveTransaction<X>>>,
) -> bool {
    match role {
        Role::Participant => scope == before,
        Role::Detached => scope == before.push(None),
        Role::Owner => exists|handle: ActiveTransaction<X>| #[trigger]
            before.push(Some(handle)) == scope && handle.state() == Finalization::Open,
    }
}

/// The bindings that the operation of a boundary that begins no transaction
/// finds: those of the entry for a participant, and an empty slot bound
/// above them for a detached boundary.
pub open spec fn entered_scope<X: Transaction + ?Sized>(
    role: Role,
    before: Seq<Option<ActiveTransaction<X>>>,
) -> Seq<Option<ActiveTransaction<X>>> {
    if role == Role::Detached {
        before.push(None)
    } else {
        before
    }
}

/// Whether `operation` may be called in every context that a boundary with
/// `options`, entered on the bindings `before`, runs it in.
pub open spec fn runs_in<X: Transaction + ?Sized, T, F>(
    operation: F,
    options: TransactionOptions,
    before: Seq<Option<ActiveTransaction<X>>>,
) -> bool where
    F: FnOnce(&mut TransactionContext<ActiveTransaction<X>>) -> Result<T, MeshestraError>,
 {
    forall|scope: &mut TransactionContext<ActiveTransaction<X>>|
        (admission(options.propagation, ambient_of(before) is Some) matches Some(role)
            && scope_of(role, before, scope@)) ==> #[trigger] operation.requires((scope,))
}

/// Whether `begun` is what `manager` gave when asked to begin a transaction
/// with `options`.
pub open spec fn begun_with<M: TransactionManager + ?Sized>(
    manager: &M,
    options: TransactionOptions,
    begun: Result<Box<dyn Transaction>, MeshestraError>,
) -> bool {
    call_ensures(M::begin, (manager, options), begun)
}

/// Whether the manager gave a transaction.
pub open spec fn was_begun<X: Transaction + ?Sized>(begun: Result<Box<X>, MeshestraError>) -> bool {
    begun is Ok
}

/// Whether `outcome` is the failure of a boundary whose manager refused to
/// begin a transaction: `begin_failure` of the refusal.
pub open spec fn begin_refused<X: Transaction + ?Sized, T>(
    begun: Result<Box<X>, MeshestraError>,
    outcome: Result<T, MeshestraError>,
) -> bool {
    begun matches Err(cause) && outcome matches Err(e) && e@ == begin_failure_spec(cause@)
}

/// The bindings that the operation of an owner finds: the transaction that
/// the manager gave, in an open handle, bound above those of the entry.
pub open spec fn owner_scope<X: Transaction + ?Sized>(
    before: Seq<Option<ActiveTransaction<X>>>,
    begun: Result<Box<X>, MeshestraError>,
) -> Seq<Option<ActiveTransaction<X>>> {
    match begun {
        Ok(transaction) => before.push(Some(ActiveTransaction::opened(transaction))),
        Err(_) => before,
    }
}

/// Whether the manager of the boundary was resolved.
pub open spec fn was_resolved<M: TransactionManager + ?Sized>(
    resolved: Result<Arc<M>, MeshestraError>,
) -> bool {
    resolved is Ok
}

/// Whether `outcome` is the failure of a boundary whose manager could not
/// be resolved: the error of the resolution, as it is.
pub open spec fn resolution_failed<M: TransactionManager + ?Sized, T>(
    resolved: Result<Arc<M>, MeshestraError>,
    outcome: Result<T, MeshestraError>,
) -> bool {
    resolved matches Err(missing) && outcome == Err::<T, MeshestraError>(missing)
}

/// Whether `begun` is what the manager that was resolved gave when asked to
/// begin a transaction with `options`.
pub open spec fn begun_with_resolved<M: TransactionManager + ?Sized>(
    resolved: Result<Arc<M>, MeshestraError>,
    options: TransactionOptions,
    begun: Result<Box<dyn Transaction>, MeshestraError>,
) -> bool {
    resolved matches Ok(manager) && begun_with(&*manager, options, begun)
}

/// Runs the operation of a boundary that is to own a transaction, once its
/// manager has answered: where the manager refused, nothing runs and the
/// boundary fails with `begin_failure`; where it gave a transaction, that
/// transaction is published in an open handle, the operation runs, and the
/// boundary completes as `boundary_ran` says.
pub fn run_begun<X, T, F>(
    pending: PendingBegin,
    begun: Result<Box<X>, MeshestraError>,
    context: &mut TransactionContext<ActiveTransaction<X>>,
    operation: F,
) -> (outcome: Result<T, MeshestraError>) where
    X: Transaction + ?Sized,
    F: FnOnce(&mut TransactionContext<ActiveTransaction<X>>) -> Result<T, MeshestraError>,

    requires
        pending.base() == old(context)@.len(),
        forall|scope: &mut TransactionContext<ActiveTransaction<X>>|
            scope_of(Role::Owner, old(context)@, scope@) ==> #[trigger] operation.requires(
                (scope,),
            ),
    ensures
        if was_begun(begun) {
            exists|
                scope: &mut TransactionContext<ActiveTransaction<X>>,
                result: Result<T, MeshestraError>,
            |
                {
                    &&& scope@ == owner_scope(old(context)@, begun)
                    &&& scope_of(Role::Owner, old(context)@, scope@)
                    &&& #[trigger] operation.ensures((scope,), result)
                    &&& boundary_ran(
                        Role::Owner,
                        old(context)@.len(),
                        final(scope)@,
                        result,
                        outcome,
                        final(context)@,
                    )
                }
        } else {
            begin_refused(begun, outcome) && final(context)@ == old(context)@
        },
{
    match begun {
        Err(cause) => Err(pending.failed(&cause)),
        Ok(transaction) => {
            proof {
                ActiveTransaction::lemma_opened(transaction);
            }
            let boundary = pending.opened(context, ActiveTransaction::new(transaction));
            run_admitted(boundary, context, operation)
        },
    }
}

/// Runs the operation of a boundary that is to own a transaction, given the
/// result of resolving its manager: where the resolution failed, its error
/// is returned and nothing runs; otherwise the manager is asked to begin a
/// transaction with the options of the boundary, and the boundary goes on
/// as `run_begun` says.
pub fn begin_resolved<M, T, F>(
    pending: PendingBegin,
    resolved: Result<Arc<M>, MeshestraError>,
    context: &mut TransactionContext<ActiveTransaction>,
    operation: F,
) -> (outcome: Result<T, MeshestraError>) where
    M: TransactionManager + ?Sized,
    F: FnOnce(&mut TransactionContext<ActiveTransaction>) -> Result<T, MeshestraError>,

    requires
        pending.base() == old(context)@.len(),
        forall|scope: &mut TransactionContext<ActiveTransaction>|
            scope_of(Role::Owner, old(context)@, scope@) ==> #[trigger] operation.requires(
                (scope,),
            ),
    ensures
        if was_resolved(resolved) {
            exists|begun: Result<Box<dyn Transaction>, MeshestraError>| #[trigger]
                begun_with_resolved(resolved, pending.options(), begun) && (if was_begun(begun) {
                    exists|
                        scope: &mut TransactionContext<ActiveTransaction>,
                        result: Result<T, MeshestraError>,
                    |
                        {
                            &&& scope@ == owner_scope(old(context)@, begun)
                            &&& scope_of(Role::Owner, old(context)@, scope@)
                            &&& #[trigger] operation.ensures((scope,), result)
                            &&& boundary_ran(
                                Role::Owner,
                                old(context)@.len(),
                                final(scope)@,
                                result,
                                outcome,
                                final(context)@,
                            )
                        }
                } else {
                    begin_refused(begun, outcome) && final(context)@ == old(context)@
                })
        } else {
            resolution_failed(resolved, outcome) && final(context)@ == old(context)@
        },
{
    match resolved {
        Err(missing) => Err(missing),
        Ok(manager) => {
            let begun = manager.begin(pending.begin_options());
            assert(begun_with_resolved(resolved, pending.options(), begun));
            run_begun(pending, begun, context, operation)
        },
    }
}

/// Runs `operation` inside a boundary with `options`.
///
/// A refused boundary returns its refusal, runs nothing and leaves the
/// context as it was. A participant runs the operation in place. A detached
/// boundary runs it with an empty slot. An owner asks `manager` to begin a
/// transaction with `options`, runs the operation with that transaction
/// ambient in an open handle, then commits after a success and rolls back
/// after a failure; where no transaction can be begun the operation does
/// not run and the boundary fails as `begin_failure` says.
///
/// The operation is called once, in a context as `scope_of` describes it,
/// and may rely on that: inside an owner every reader of the slot sees the
/// transaction of the boundary. The boundary then completes on the context
/// as the operation left it, what it asks for is carried out, and
/// `conclude` combines the two results: a boundary that owns no transaction
/// returns what its operation returned.
pub fn execute<M, T, F>(
    context: &mut TransactionContext<ActiveTransaction>,
    manager: &M,
    options: &TransactionOptions,
    operation: F,
) -> (outcome: Result<T, MeshestraError>) where
    M: TransactionManager + ?Sized,
    F: FnOnce(&mut TransactionContext<ActiveTransaction>) -> Result<T, MeshestraError>,

    requires
        runs_in(operation, *options, old(context)@),
    ensures
        match admission(options.propagation, old(context).ambient() is Some) {
            None => {
                &&& final(context)@ == old(context)@
                &&& outcome matches Err(e)
                &&& e@ == refusal(options.propagation)
            },
            Some(Role::Owner) => exists|begun: Result<Box<dyn Transaction>, MeshestraError>| #[trigger]
                begun_with(manager, *options, begun) && (if was_begun(begun) {
                    exists|
                        scope: &mut TransactionContext<ActiveTransaction>,
                        result: Result<T, MeshestraError>,
                    |
                        {
                            &&& scope@ == owner_scope(old(context)@, begun)
                            &&& scope_of(Role::Owner, old(context)@, scope@)
                            &&& #[trigger] operation.ensures((scope,), result)
                            &&& boundary_ran(
                                Role::Owner,
                                old(context)@.len(),
                                final(scope)@,
                                result,
                                outcome,
                                final(context)@,
                            )
                        }
                } else {
                    begin_refused(begun, outcome) && final(context)@ == old(context)@
                }),
            Some(role) => exists|
                scope: &mut TransactionContext<ActiveTransaction>,
                result: Result<T, MeshestraError>,
            |
                {
                    &&& scope@ == entered_scope(role, old(context)@)
                    &&& #[trigger] operation.ensures((scope,), result)
                    &&& boundary_ran(
                        role,
                        old(context)@.len(),
                        final(scope)@,
                        result,
                        outcome,
                        final(context)@,
                    )
                },
        },
{
    match Boundary::enter(context, options) {
        Err(refused) => Err(refused),
        Ok(Entry::Ready(boundary)) => run_admitted(boundary, context, operation),
        Ok(Entry::Begin(pending)) => {
            let begun = manager.begin(pending.begin_options());
            assert(begun_with(manager, *options, begun));
            run_begun(pending, begun, context, operation)
        },
    }
}

/// Runs `operation` inside a boundary with `options`, as `execute` does,
/// with the manager that `container` binds to the capability
/// `TransactionManager`. The manager is resolved only where a transaction
/// has to be begun; where it cannot be resolved, the error of the
/// resolution is returned, the operation does not run, and the context is
/// left as it was.
pub fn execute_in<T, F>(
    container: &Container,
    context: &mut TransactionContext<ActiveTransaction>,
    options: &TransactionOptions,
    operation: F,
) -> (outcome: Result<T, MeshestraError>) where
    F: FnOnce(&mut TransactionContext<ActiveTransaction>) -> Result<T, MeshestraError>,

    requires
        runs_in(operation, *options, old(context)@),
    ensures
        match admission(options.propagation, old(context).ambient() is Some) {
            None => {
                &&& final(context)@ == old(context)@
                &&& outcome matches Err(e)
                &&& e@ == refusal(options.propagation)
            },
            Some(Role::Owner) => exists|
                key: TypeKey,
                resolved: Result<Arc<dyn TransactionManager>, MeshestraError>,
            |
                key.stands_for::<dyn TransactionManager>() && #[trigger] container@.resolves_capability(
                    key,
                    resolved,
                ) && if was_resolved(resolved) {
                    exists|begun: Result<Box<dyn Transaction>, MeshestraError>| #[trigger]
                        begun_with_resolved(resolved, *options, begun) && (if was_begun(begun) {
                            exists|
                                scope: &mut TransactionContext<ActiveTransaction>,
                                result: Result<T, MeshestraError>,
                            |
                                {
                                    &&& scope@ == owner_scope(old(context)@, begun)
                                    &&& scope_of(Role::Owner, old(context)@, scope@)
                                    &&& #[trigger] operation.ensures((scope,), result)
                                    &&& boundary_ran(
                                        Role::Owner,
                                        old(context)@.len(),
                                        final(scope)@,
                                        result,
                                        outcome,
                                        final(context)@,
                                    )
                                }
                        } else {
                            begin_refused(begun, outcome) && final(context)@ == old(context)@
                        })
                } else {
                    resolution_failed(resolved, outcome) && final(context)@ == old(context)@
                },
            Some(role) => exists|
                scope: &mut TransactionContext<ActiveTransaction>,
                result: Result<T, MeshestraError>,
            |
                {
                    &&& scope@ == entered_scope(role, old(context)@)
                    &&& #[trigger] operation.ensures((scope,), result)
                    &&& boundary_ran(
                        role,
                        old(context)@.len(),
                        final(scope)@,
                        result,
                        outcome,
                        final(context)@,
                    )
                },
        },
{
    match Boundary::enter(context, options) {
        Err(refused) => Err(refused),
        Ok(Entry::Ready(boundary)) => run_admitted(boundary, context, operation),
        Ok(Entry::Begin(pending)) => {
            let resolved = container.resolve_trait::<dyn TransactionManager>();
            begin_resolved(pending, resolved, context, operation)
        },
    }
}

/// Runs the operation of a boundary that was admitted, completes the
/// boundary, carries out the finalization it asks for, and combines the
/// results.
pub fn run_admitted<X, T, F>(
    boundary: Boundary,
    context: &mut TransactionContext<ActiveTransaction<X>>,
    operation: F,
) -> (outcome: Result<T, MeshestraError>) where
    X: Transaction + ?Sized,
    F: FnOnce(&mut TransactionContext<ActiveTransaction<X>>) -> Result<T, MeshestraError>,

    requires
        forall|scope: &mut TransactionContext<ActiveTransaction<X>>|
            scope@ == old(context)@ ==> #[trigger] operation.requires((scope,)),
    ensures
        exists|scope: &mut TransactionContext<ActiveTransaction<X>>, result: Result<T, MeshestraError>|
            {
                &&& scope@ == old(context)@
                &&& #[trigger] operation.ensures((scope,), result)
                &&& boundary_ran(
                    boundary.role(),
                    boundary.base(),
                    final(scope)@,
                    result,
                    outcome,
                    final(context)@,
                )
            },
{
    let result = operation(context);
    let ghost left = context@;
    let request = boundary.complete(context, completion_for(&result));
    let finalized = finalize(request);
    let outcome = conclude(result, finalized);
    proof {
        assert(finalized_by(
            completed(boundary.role(), boundary.base(), left, completion_of(result)).1,
            finalized,
        ));
        assert(boundary_ran(
            boundary.role(),
            boundary.base(),
            left,
            result,
            outcome,
            context@,
        ));
    }
    outcome
}

} // verus!
