//! What holds of every boundary, whatever its operation does.

use crate::error::MeshestraError;
use crate::transactional::boundary::{
    admission, commit_failure, completed, concluded, entered, Completion, Entry, Finalize, Role,
};
use crate::transactional::context::{ambient_of, restored};
use crate::transactional::handle::{already_finalized, Finalization};
use crate::transactional::options::{Propagation, TransactionOptions};
use vstd::prelude::*;

verus! {

/// While a boundary owns a transaction, the slot reads that transaction;
/// once the boundary completes, however its operation ended, the slot reads
/// what it read before the boundary was entered, which is nothing where
/// nothing was ambient.
pub proof fn lemma_ambient_scoping<H>(before: Seq<Option<H>>, handle: H, completion: Completion)
    ensures
        ambient_of(before.push(Some(handle))) == Some(handle),
        completed(Role::Owner, before.len(), before.push(Some(handle)), completion).0 == before,
        ambient_of(
            completed(Role::Owner, before.len(), before.push(Some(handle)), completion).0,
        ) == ambient_of(before),
        before.len() == 0 ==> ambient_of(
            completed(Role::Owner, before.len(), before.push(Some(handle)), completion).0,
        ) is None,
{
    let during = before.push(Some(handle));
    assert(during.take(before.len() as int) =~= before);
}

/// A participant that is entered and completed inside another boundary
/// leaves the slot untouched throughout: every reader in between sees the
/// transaction that the outer boundary published.
pub proof fn lemma_nested_reads_agree<H>(
    scopes: Seq<Option<H>>,
    options: TransactionOptions,
    outcome: Result<Entry, MeshestraError>,
    after: Seq<Option<H>>,
    completion: Completion,
)
    requires
        ambient_of(scopes) is Some,
        options.propagation == Propagation::Required || options.propagation == Propagation::Supports
            || options.propagation == Propagation::Mandatory,
        entered(scopes, options, outcome, after),
    ensures
        after == scopes,
        ambient_of(after) == ambient_of(scopes),
        outcome matches Ok(Entry::Ready(inner)) && inner.role() == Role::Participant && completed(
            inner.role(),
            inner.base(),
            after,
            completion,
        ) == (scopes, Finalize::<H>::Nothing),
{
}

/// A `Required` boundary that finds a transaction ambient joins it: it
/// begins none and asks for no finalization, so the outer transaction stays
/// open for the boundary that owns it.
pub proof fn lemma_required_joins<H>(scopes: Seq<Option<H>>, completion: Completion)
    requires
        ambient_of(scopes) is Some,
    ensures
        admission(Propagation::Required, true) == Some(Role::Participant),
        completed(Role::Participant, scopes.len(), scopes, completion) == (
            scopes,
            Finalize::<H>::Nothing,
        ),
{
}

/// A `RequiresNew` boundary that finds a transaction ambient begins one of
/// its own. While it runs, the slot reads the new transaction; when it
/// completes, it asks for the finalization of the new transaction only, and
/// the slot reads the outer transaction again. The outer boundary then
/// finalizes the outer transaction by its own completion alone.
pub proof fn lemma_requires_new_is_independent<H>(
    below: Seq<Option<H>>,
    outer: H,
    inner: H,
    inner_completion: Completion,
    outer_completion: Completion,
)
    ensures
        admission(Propagation::RequiresNew, true) == Some(Role::Owner),
        ambient_of(below.push(Some(outer)).push(Some(inner))) == Some(inner),
        completed(
            Role::Owner,
            below.len() + 1,
            below.push(Some(outer)).push(Some(inner)),
            inner_completion,
        ) == (
            below.push(Some(outer)),
            if inner_completion == Completion::Succeeded {
                Finalize::Commit(inner)
            } else {
                Finalize::Rollback(inner)
            },
        ),
        completed(Role::Owner, below.len(), below.push(Some(outer)), outer_completion) == (
            below,
            if outer_completion == Completion::Succeeded {
                Finalize::Commit(outer)
            } else {
                Finalize::Rollback(outer)
            },
        ),
{
    let one = below.push(Some(outer));
    let two = one.push(Some(inner));
    assert(two.take(one.len() as int) =~= one);
    assert(one.take(below.len() as int) =~= below);
}

/// An owner whose operation succeeded is asked for one thing, the commit of
/// its own transaction; one whose operation failed or was cancelled is
/// asked for one thing, its rollback.
pub proof fn lemma_commit_on_success_rollback_on_failure<H>(
    before: Seq<Option<H>>,
    handle: H,
    completion: Completion,
)
    ensures
        completion == Completion::Succeeded ==> completed(
            Role::Owner,
            before.len(),
            before.push(Some(handle)),
            completion,
        ).1 == Finalize::Commit(handle),
        completion != Completion::Succeeded ==> completed(
            Role::Owner,
            before.len(),
            before.push(Some(handle)),
            completion,
        ).1 == Finalize::Rollback(handle),
{
}

/// The failure of an operation is what the boundary returns, whatever the
/// rollback gave; a success is returned unless the commit failed, and then
/// the boundary fails with the commit's message.
pub proof fn lemma_failure_is_authoritative<T>(
    value: T,
    failure: MeshestraError,
    finalized: Option<Result<(), MeshestraError>>,
    outcome: Result<T, MeshestraError>,
)
    ensures
        concluded(Err::<T, MeshestraError>(failure), finalized, outcome) ==> outcome == Err::<
            T,
            MeshestraError,
        >(failure),
        concluded(Ok::<T, MeshestraError>(value), finalized, outcome) && !(finalized matches Some(
            Err(_),
        )) ==> outcome == Ok::<T, MeshestraError>(value),
        concluded(Ok::<T, MeshestraError>(value), finalized, outcome) ==> (finalized matches Some(
            Err(cause),
        ) ==> outcome matches Err(e) && e@ == commit_failure(cause@)),
{
}

/// `Mandatory` refuses exactly where no transaction is ambient, `Never`
/// exactly where one is, and `Nested` always; each refusal leaves the
/// context as it was.
pub proof fn lemma_modes_that_refuse<H>(
    scopes: Seq<Option<H>>,
    options: TransactionOptions,
    outcome: Result<Entry, MeshestraError>,
    after: Seq<Option<H>>,
)
    requires
        entered(scopes, options, outcome, after),
    ensures
        options.propagation == Propagation::Mandatory ==> (outcome is Err <==> ambient_of(scopes)
            is None),
        options.propagation == Propagation::Never ==> (outcome is Err <==> ambient_of(scopes)
            is Some),
        options.propagation == Propagation::Nested ==> outcome is Err,
        options.propagation == Propagation::Required || options.propagation
            == Propagation::RequiresNew || options.propagation == Propagation::Supports
            || options.propagation == Propagation::NotSupported ==> outcome is Ok,
        outcome is Err ==> after == scopes,
{
}

/// `Supports`, `NotSupported`, `Mandatory` and `Never` begin no transaction,
/// whatever is ambient, and `RequiresNew` always begins one.
pub proof fn lemma_modes_that_begin(active: bool)
    ensures
        admission(Propagation::Supports, active) != Some(Role::Owner),
        admission(Propagation::NotSupported, active) != Some(Role::Owner),
        admission(Propagation::Mandatory, active) != Some(Role::Owner),
        admission(Propagation::Never, active) != Some(Role::Owner),
        admission(Propagation::RequiresNew, active) == Some(Role::Owner),
        admission(Propagation::Required, active) == Some(Role::Owner) <==> !active,
{
}

/// A handle is finalized once. After a commit or a rollback it stays as it
/// is: a further commit reaches nothing and is an error, a further rollback
/// reaches nothing and succeeds.
pub proof fn lemma_consume_once(state: Finalization)
    ensures
        state.after_commit().is_final(),
        state.after_rollback().is_final(),
        state.after_commit().after_commit() == state.after_commit(),
        state.after_commit().after_rollback() == state.after_commit(),
        state.after_rollback().after_rollback() == state.after_rollback(),
        state.after_rollback().after_commit() == state.after_rollback(),
        state.after_commit().commit_verdict() == Some(already_finalized()),
        state.after_rollback().commit_verdict() == Some(already_finalized()),
        state.after_rollback().rollback_is_noop(),
        state.after_commit().rollback_is_noop(),
{
}

/// Leaving a boundary restores the bindings of its entry, whatever was
/// bound above them in between.
pub proof fn lemma_restore_drops_what_was_bound<H>(before: Seq<Option<H>>, above: Seq<Option<H>>)
    ensures
        restored(before + above, before.len()) == before,
{
    assert((before + above).take(before.len() as int) =~= before);
}

} // verus!
