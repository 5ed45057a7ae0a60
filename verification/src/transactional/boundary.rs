//! The transactional boundary: what it decides on entry, what it owes on
//! completion, and what its caller gets back.

use crate::error::{ErrorView, MeshestraError};
use crate::text::prefixed;
use crate::transactional::context::{ambient_of, restored, TransactionContext};
use crate::transactional::options::{Propagation, TransactionOptions};
use vstd::prelude::*;

verus! {

/// The part a boundary plays towards transactions.
#[derive(Debug, Clone, Copy, PartialEq, Eq, Structural)]
pub enum Role {
    /// It runs its operation in place: it leaves the slot as it is, creates
    /// no transaction and finalizes none.
    Participant,
    /// It runs its operation with an empty slot; the ambient transaction is
    /// suspended meanwhile and not finalized by it.
    Detached,
    /// It begins a transaction, publishes it for the extent of its
    /// operation, and finalizes it afterwards.
    Owner,
}

/// How the operation of a boundary ended.
#[derive(Debug, Clone, Copy, PartialEq, Eq, Structural)]
pub enum Completion {
    /// It returned a success.
    Succeeded,
    /// It returned a failure.
    Failed,
    /// It was cancelled before it returned.
    Cancelled,
}

impl Completion {
    /// Whether the transaction of an owner is committed after this
    /// completion: after a success, and after nothing else.
    pub open spec fn commits_spec(self) -> bool {
        self == Completion::Succeeded
    }

    /// Whether the transaction of an owner is committed after this
    /// completion; it is rolled back otherwise.
    pub fn commits(self) -> (commit: bool)
        ensures
            commit == self.commits_spec(),
    {
        match self {
            Completion::Succeeded => true,
            _ => false,
        }
    }
}

/// The part that a boundary of the given mode plays, given whether a
/// transaction is ambient; `None` where the mode refuses to run.
pub open spec fn admission(propagation: Propagation, active: bool) -> Option<Role> {
    match propagation {
        Propagation::Required => Some(
            if active {
                Role::Participant
            } else {
                Role::Owner
            },
        ),
        Propagation::RequiresNew => Some(Role::Owner),
        Propagation::Supports => Some(Role::Participant),
        Propagation::Mandatory => if active {
            Some(Role::Participant)
        } else {
            None
        },
        Propagation::Never => if active {
            None
        } else {
            Some(Role::Participant)
        },
        Propagation::NotSupported => Some(
            if active {
                Role::Detached
            } else {
                Role::Participant
            },
        ),
        Propagation::Nested => None,
    }
}

/// What a boundary reports where its mode refuses to run.
pub open spec fn refusal(propagation: Propagation) -> ErrorView {
    match propagation {
        Propagation::Mandatory => ErrorView::ScopeMismatch {
            message: "Propagation::Mandatory requires an active transaction"@,
        },
        Propagation::Never => ErrorView::ScopeMismatch {
            message: "Propagation::Never forbids an active transaction"@,
        },
        _ => ErrorView::Internal("Unsupported propagation mode: Nested"@),
    }
}

/// What `plan` returns for the given mode and slot.
pub open spec fn planned(
    propagation: Propagation,
    active: bool,
    outcome: Result<Role, MeshestraError>,
) -> bool {
    match admission(propagation, active) {
        Some(role) => outcome == Ok::<Role, MeshestraError>(role),
        None => outcome matches Err(e) && e@ == refusal(propagation),
    }
}

/// Decides the part of a boundary of the given mode, given whether a
/// transaction is ambient: it joins, begins, detaches or refuses.
pub fn plan(propagation: Propagation, active: bool) -> (outcome: Result<Role, MeshestraError>)
    ensures
        planned(propagation, active, outcome),
{
    match propagation {
        Propagation::Required => if active {
            Ok(Role::Participant)
        } else {
            Ok(Role::Owner)
        },
        Propagation::RequiresNew => Ok(Role::Owner),
        Propagation::Supports => Ok(Role::Participant),
        Propagation::Mandatory => if active {
            Ok(Role::Participant)
        } else {
            Err(
                MeshestraError::scope_mismatch(
                    "Propagation::Mandatory requires an active transaction",
                ),
            )
        },
        Propagation::Never => if active {
            Err(MeshestraError::scope_mismatch("Propagation::Never forbids an active transaction"))
        } else {
            Ok(Role::Participant)
        },
        Propagation::NotSupported => if active {
            Ok(Role::Detached)
        } else {
            Ok(Role::Participant)
        },
        Propagation::Nested => Err(
            MeshestraError::internal("Unsupported propagation mode: Nested"),
        ),
    }
}

/// What a completed boundary asks of its caller.
pub enum Finalize<H> {
    /// Nothing: the boundary owned no transaction.
    Nothing,
    /// Commit this transaction, which the boundary began.
    Commit(H),
    /// Roll this transaction back, which the boundary began.
    Rollback(H),
}

/// One boundary invocation that has been admitted: its part, and the number
/// of bindings that were in force when it was entered.
pub struct Boundary {
    role: Role,
    base: usize,
}

/// A boundary that has to begin a transaction before its operation runs.
pub struct PendingBegin {
    base: usize,
    options: TransactionOptions,
}

/// What entering a boundary gives.
pub enum Entry {
    /// The operation may run now.
    Ready(Boundary),
    /// A transaction has to be begun first, with the options held here.
    Begin(PendingBegin),
}

/// The state of the slot and the result after a boundary with `options` was
/// entered on the bindings `before`.
pub open spec fn entered<H>(
    before: Seq<Option<H>>,
    options: TransactionOptions,
    outcome: Result<Entry, MeshestraError>,
    after: Seq<Option<H>>,
) -> bool {
    match admission(options.propagation, ambient_of(before) is Some) {
        None => {
            &&& after == before
            &&& outcome matches Err(e)
            &&& e@ == refusal(options.propagation)
        },
        Some(Role::Participant) => {
            &&& after == before
            &&& outcome matches Ok(Entry::Ready(b))
            &&& b.role() == Role::Participant
            &&& b.base() == before.len()
        },
        Some(Role::Detached) => {
            &&& after == before.push(None)
            &&& outcome matches Ok(Entry::Ready(b))
            &&& b.role() == Role::Detached
            &&& b.base() == before.len()
        },
        Some(Role::Owner) => {
            &&& after == before
            &&& outcome matches Ok(Entry::Begin(p))
            &&& p.base() == before.len()
            &&& p.options() == options
        },
    }
}

/// The bindings and the request after a boundary with the given part and
/// base completes on the bindings `before`.
pub open spec fn completed<H>(
    role: Role,
    base: nat,
    before: Seq<Option<H>>,
    completion: Completion,
) -> (Seq<Option<H>>, Finalize<H>) {
    match role {
        Role::Participant => (before, Finalize::Nothing),
        Role::Detached => (restored(before, base), Finalize::Nothing),
        Role::Owner => (
            restored(before, base),
            if base < before.len() && before[base as int] is Some {
                if completion.commits_spec() {
                    Finalize::Commit(before[base as int]->0)
                } else {
                    Finalize::Rollback(before[base as int]->0)
                }
            } else {
                Finalize::Nothing
            },
        ),
    }
}

/// What a boundary fails with where no transaction could be begun, given
/// the error of the manager.
pub open spec fn begin_failure_spec(cause: ErrorView) -> ErrorView {
    ErrorView::Internal(cause.message())
}

/// The failure of a boundary where no transaction could be begun: an
/// internal error that carries the message of the manager's error.
pub fn begin_failure(cause: &MeshestraError) -> (failure: MeshestraError)
    ensures
        failure@ == begin_failure_spec(cause@),
{
    MeshestraError::Internal(cause.message())
}

impl PendingBegin {
    /// The number of bindings that were in force on entry.
    pub closed spec fn base(&self) -> nat {
        self.base as nat
    }

    /// The options to begin the transaction with.
    pub closed spec fn options(&self) -> TransactionOptions {
        self.options
    }

    /// The options to begin the transaction with.
    pub fn begin_options(&self) -> (options: TransactionOptions)
        ensures
            options == self.options(),
    {
        self.options
    }

    /// Publishes the transaction that was begun: it is ambient until the
    /// boundary completes, and the boundary owns it.
    pub fn opened<H>(self, context: &mut TransactionContext<H>, handle: H) -> (boundary: Boundary)
        ensures
            final(context)@ == old(context)@.push(Some(handle)),
            final(context).ambient() == Some(handle),
            boundary.role() == Role::Owner,
            boundary.base() == self.base(),
    {
        context.bind(Some(handle));
        Boundary { role: Role::Owner, base: self.base }
    }

    /// Gives the boundary up where no transaction could be begun, and
    /// returns its failure.
    pub fn failed(self, error: &MeshestraError) -> (failure: MeshestraError)
        ensures
            failure@ == begin_failure_spec(error@),
    {
        begin_failure(error)
    }
}

impl Boundary {
    /// The part the boundary plays.
    pub closed spec fn role(&self) -> Role {
        self.role
    }

    /// The number of bindings that were in force on entry.
    pub closed spec fn base(&self) -> nat {
        self.base as nat
    }

    /// The part the boundary plays.
    pub fn part(&self) -> (role: Role)
        ensures
            role == self.role(),
    {
        self.role
    }

    /// Enters a boundary with `options`. A participant leaves the slot as
    /// it is; a detached boundary empties it for its extent; a boundary that
    /// is to own a transaction leaves it until the transaction is opened;
    /// a refused boundary changes nothing and reports why.
    pub fn enter<H>(context: &mut TransactionContext<H>, options: &TransactionOptions) -> (outcome:
        Result<Entry, MeshestraError>)
        ensures
            entered(old(context)@, *options, outcome, final(context)@),
    {
        let base = context.depth();
        match plan(options.propagation, context.is_active()) {
            Err(e) => Err(e),
            Ok(Role::Participant) => Ok(Entry::Ready(Boundary { role: Role::Participant, base })),
            Ok(Role::Detached) => {
                context.bind(None);
                Ok(Entry::Ready(Boundary { role: Role::Detached, base }))
            },
            Ok(Role::Owner) => Ok(Entry::Begin(PendingBegin { base, options: *options })),
        }
    }

    /// Completes the boundary: every binding made since its entry ends, so
    /// the slot reads as it did before, and the transaction it owns, if any,
    /// is handed back to be committed after a success and rolled back after
    /// a failure or a cancellation.
    pub fn complete<H>(self, context: &mut TransactionContext<H>, completion: Completion) -> (request:
        Finalize<H>)
        ensures
            (final(context)@, request) == completed(
                self.role(),
                self.base(),
                old(context)@,
                completion,
            ),
    {
        match self.role {
            Role::Participant => Finalize::Nothing,
            Role::Detached => {
                context.restore(self.base);
                Finalize::Nothing
            },
            Role::Owner => {
                if self.base < context.depth() {
                    context.restore(self.base + 1);
                    let released = context.unbind();
                    assert(final(context)@ == old(context)@.take(self.base as int)) by {
                        assert(old(context)@.take(self.base + 1).drop_last() =~= old(context)@.take(
                            self.base as int,
                        ));
                    }
                    match released {
                        Some(Some(handle)) => if completion.commits() {
                            Finalize::Commit(handle)
                        } else {
                            Finalize::Rollback(handle)
                        },
                        _ => Finalize::Nothing,
                    }
                } else {
                    Finalize::Nothing
                }
            },
        }
    }
}

/// What a commit that failed after a successful operation is reported as.
pub open spec fn commit_failure(cause: ErrorView) -> ErrorView {
    ErrorView::Internal("Failed to commit transaction: "@ + cause.message())
}

/// What a boundary returns, given the result of its operation and the
/// result of the finalization it asked for, if it asked for one. A failure
/// of the operation is returned as it is, whatever the rollback did; a
/// success stands unless the commit failed.
pub open spec fn concluded<T>(
    operation: Result<T, MeshestraError>,
    finalized: Option<Result<(), MeshestraError>>,
    outcome: Result<T, MeshestraError>,
) -> bool {
    match operation {
        Err(failure) => outcome == Err::<T, MeshestraError>(failure),
        Ok(value) => match finalized {
            Some(Err(cause)) => outcome matches Err(e) && e@ == commit_failure(cause@),
            _ => outcome == Ok::<T, MeshestraError>(value),
        },
    }
}

/// Combines the result of the operation with the result of the finalization
/// into what the boundary returns.
pub fn conclude<T>(
    operation: Result<T, MeshestraError>,
    finalized: Option<Result<(), MeshestraError>>,
) -> (outcome: Result<T, MeshestraError>)
    ensures
        concluded(operation, finalized, outcome),
{
    match operation {
        Err(failure) => Err(failure),
        Ok(value) => match finalized {
            Some(Err(cause)) => {
                let text = cause.message();
                Err(MeshestraError::Internal(prefixed("Failed to commit transaction: ", text.as_str())))
            },
            _ => Ok(value),
        },
    }
}

} // verus!
