//! The transaction capabilities, and the handle that lets each transaction
//! be finalized once.

use crate::error::{ErrorView, MeshestraError};
use crate::transactional::options::TransactionOptions;
use vstd::prelude::*;

verus! {

/// A transaction as its manager hands it out. What `commit` and `rollback`
/// do to the resource, and what they return, is the implementor's.
pub trait Transaction: Send + Sync {
    /// Makes the work of the transaction durable.
    fn commit(&mut self) -> Result<(), MeshestraError>;

    /// Discards the work of the transaction.
    fn rollback(&mut self) -> Result<(), MeshestraError>;
}

/// Calls `commit` of `transaction`, once.
fn commit_unboxed<T: Transaction + ?Sized>(transaction: &mut T) -> (outcome: Result<
    (),
    MeshestraError,
>)
    ensures
        exists|running: &mut T|
            &*running == &*old(transaction) && &*final(running) == &*final(transaction)
                && #[trigger] call_ensures(T::commit, (running,), outcome),
{
    transaction.commit()
}

/// Calls `rollback` of `transaction`, once.
fn rollback_unboxed<T: Transaction + ?Sized>(transaction: &mut T) -> (outcome: Result<
    (),
    MeshestraError,
>)
    ensures
        exists|running: &mut T|
            &*running == &*old(transaction) && &*final(running) == &*final(transaction)
                && #[trigger] call_ensures(T::rollback, (running,), outcome),
{
    transaction.rollback()
}

/// A boxed transaction is a transaction: each operation is handed, once, to
/// the transaction in the box, which is left as that call left it, and what
/// the call returned is returned.
impl<T: Transaction + ?Sized> Transaction for Box<T> {
    fn commit(&mut self) -> (outcome: Result<(), MeshestraError>)
        ensures
            exists|running: &mut T|
                &*running == &**old(self) && &*final(running) == &**final(self)
                    && #[trigger] call_ensures(T::commit, (running,), outcome),
    {
        commit_unboxed::<T>(&mut **self)
    }

    fn rollback(&mut self) -> (outcome: Result<(), MeshestraError>)
        ensures
            exists|running: &mut T|
                &*running == &**old(self) && &*final(running) == &**final(self)
                    && #[trigger] call_ensures(T::rollback, (running,), outcome),
    {
        rollback_unboxed::<T>(&mut **self)
    }
}

/// Whether `outcome` is what the commit of `transaction` gave, called on it
/// in the state given.
pub open spec fn commit_gave<T: Transaction + ?Sized>(
    transaction: Box<T>,
    outcome: Result<(), MeshestraError>,
) -> bool {
    exists|running: &mut Box<T>| *running == transaction && #[trigger] call_ensures(
        Box::<T>::commit,
        (running,),
        outcome,
    )
}

/// Whether `outcome` is what the rollback of `transaction` gave, called on
/// it in the state given.
pub open spec fn rollback_gave<T: Transaction + ?Sized>(
    transaction: Box<T>,
    outcome: Result<(), MeshestraError>,
) -> bool {
    exists|running: &mut Box<T>| *running == transaction && #[trigger] call_ensures(
        Box::<T>::rollback,
        (running,),
        outcome,
    )
}

/// Calls `commit` of `transaction`, once.
fn commit_in_place<T: Transaction + ?Sized>(transaction: &mut Box<T>) -> (outcome: Result<
    (),
    MeshestraError,
>)
    ensures
        exists|running: &mut Box<T>|
            *running == *old(transaction) && *final(running) == *final(transaction)
                && #[trigger] call_ensures(Box::<T>::commit, (running,), outcome),
{
    transaction.commit()
}

/// Calls `rollback` of `transaction`, once.
fn rollback_in_place<T: Transaction + ?Sized>(transaction: &mut Box<T>) -> (outcome: Result<
    (),
    MeshestraError,
>)
    ensures
        exists|running: &mut Box<T>|
            *running == *old(transaction) && *final(running) == *final(transaction)
                && #[trigger] call_ensures(Box::<T>::rollback, (running,), outcome),
{
    transaction.rollback()
}

/// The source of transactions.
pub trait TransactionManager: Send + Sync {
    /// Begins a transaction with the given options.
    fn begin(&self, options: TransactionOptions) -> Result<Box<dyn Transaction>, MeshestraError>;
}

/// Which terminal operation has reached the transaction, if any.
#[derive(Debug, Clone, Copy, PartialEq, Eq, Structural)]
pub enum Finalization {
    /// Neither commit nor rollback was applied yet.
    Open,
    /// Commit was applied, once; no rollback was or will be.
    Committed,
    /// Rollback was applied, once; no commit was or will be.
    RolledBack,
}

impl Finalization {
    /// Whether a terminal operation has been applied.
    pub open spec fn is_final(self) -> bool {
        self != Finalization::Open
    }

    /// The state after a call of `commit`.
    pub open spec fn after_commit(self) -> Finalization {
        if self == Finalization::Open {
            Finalization::Committed
        } else {
            self
        }
    }

    /// The state after a call of `rollback`.
    pub open spec fn after_rollback(self) -> Finalization {
        if self == Finalization::Open {
            Finalization::RolledBack
        } else {
            self
        }
    }

    /// What `commit` returns in this state where the transaction has no say:
    /// the error of a second finalization. `None` where the call reaches the
    /// transaction and its result is returned.
    pub open spec fn commit_verdict(self) -> Option<ErrorView> {
        if self.is_final() {
            Some(already_finalized())
        } else {
            None
        }
    }

    /// Whether `rollback` in this state succeeds without reaching the
    /// transaction.
    pub open spec fn rollback_is_noop(self) -> bool {
        self.is_final()
    }
}

impl Finalization {
    /// Decides a call of `commit` in this state: `Ok` with the state to
    /// move to where the commit is to reach the transaction, and the error
    /// of a second finalization where it is not.
    pub fn on_commit(self) -> (decision: Result<Finalization, MeshestraError>)
        ensures
            match self.commit_verdict() {
                Some(error) => decision matches Err(e) && e@ == error,
                None => decision == Ok::<Finalization, MeshestraError>(self.after_commit()),
            },
    {
        match self {
            Finalization::Open => Ok(Finalization::Committed),
            _ => Err(
                MeshestraError::internal(
                    "Attempted to commit a transaction that has already been finalized.",
                ),
            ),
        }
    }

    /// Decides a call of `rollback` in this state: `Some` with the state to
    /// move to where the rollback is to reach the transaction, `None` where
    /// the call is a no-op that succeeds.
    pub fn on_rollback(self) -> (decision: Option<Finalization>)
        ensures
            decision == (if self.rollback_is_noop() {
                None
            } else {
                Some(self.after_rollback())
            }),
    {
        match self {
            Finalization::Open => Some(Finalization::RolledBack),
            _ => None,
        }
    }
}

/// What a commit of a handle that is already finalized reports.
pub open spec fn already_finalized() -> ErrorView {
    ErrorView::Internal("Attempted to commit a transaction that has already been finalized."@)
}

/// A transaction together with the record of its finalization. Commit and
/// rollback reach the transaction at most once between them: a second commit
/// is an error, a second rollback a harmless no-op.
pub struct ActiveTransaction<T: Transaction + ?Sized = dyn Transaction> {
    inner: Box<T>,
    state: Finalization,
}

impl<T: Transaction + ?Sized> ActiveTransaction<T> {
    /// Which terminal operation has reached the transaction.
    pub closed spec fn state(&self) -> Finalization {
        self.state
    }

    /// The transaction that the handle finalizes.
    pub closed spec fn transaction(&self) -> Box<T> {
        self.inner
    }

    /// The open handle on `transaction`.
    pub closed spec fn opened(transaction: Box<T>) -> ActiveTransaction<T> {
        ActiveTransaction { inner: transaction, state: Finalization::Open }
    }

    /// The handle on `transaction` is open and holds it.
    pub proof fn lemma_opened(transaction: Box<T>)
        ensures
            Self::opened(transaction).transaction() == transaction,
            Self::opened(transaction).state() == Finalization::Open,
    {
    }

    /// Wraps a transaction that has just begun: the handle holds that
    /// transaction, and neither commit nor rollback has reached it.
    pub fn new(inner: Box<T>) -> (handle: ActiveTransaction<T>)
        ensures
            handle == Self::opened(inner),
            handle.transaction() == inner,
            handle.state() == Finalization::Open,
    {
        ActiveTransaction { inner, state: Finalization::Open }
    }

    /// Whether `outcome` is what a commit of this handle returns: on a
    /// finalized handle the error of a second finalization, on an open one
    /// what the commit of its transaction gave.
    pub open spec fn commits_with(&self, outcome: Result<(), MeshestraError>) -> bool {
        match self.state().commit_verdict() {
            Some(error) => outcome matches Err(e) && e@ == error,
            None => commit_gave(self.transaction(), outcome),
        }
    }

    /// Whether `outcome` is what a rollback of this handle returns: on a
    /// finalized handle success, on an open one what the rollback of its
    /// transaction gave.
    pub open spec fn rolls_back_with(&self, outcome: Result<(), MeshestraError>) -> bool {
        if self.state().rollback_is_noop() {
            outcome is Ok
        } else {
            rollback_gave(self.transaction(), outcome)
        }
    }

    /// Which terminal operation has reached the transaction.
    pub fn finalization(&self) -> (state: Finalization)
        ensures
            state == self.state(),
    {
        self.state
    }

    /// Whether commit or rollback has been applied.
    pub fn is_finalized(&self) -> (done: bool)
        ensures
            done == self.state().is_final(),
    {
        !(self.state == Finalization::Open)
    }

    /// Commits the transaction if it is open, and returns what the
    /// transaction returned; the handle is finalized either way, and holds
    /// the transaction as that one commit left it. On a finalized handle
    /// nothing is applied and the call is an error.
    pub fn commit(&mut self) -> (outcome: Result<(), MeshestraError>)
        ensures
            final(self).state() == old(self).state().after_commit(),
            old(self).commits_with(outcome),
            old(self).state().is_final() ==> final(self).transaction() == old(self).transaction(),
            !old(self).state().is_final() ==> exists|running: &mut Box<T>|
                *running == old(self).transaction() && *final(running) == final(self).transaction()
                    && #[trigger] call_ensures(Box::<T>::commit, (running,), outcome),
            old(self).state().commit_verdict() matches Some(error) ==> outcome matches Err(e)
                && e@ == error,
    {
        match self.state.on_commit() {
            Ok(next) => {
                self.state = next;
                commit_in_place(&mut self.inner)
            },
            Err(refused) => Err(refused),
        }
    }

    /// Rolls the transaction back if it is open, and returns what the
    /// transaction returned; the handle is finalized either way, and holds
    /// the transaction as that one rollback left it. On a finalized handle
    /// nothing is applied and the call succeeds.
    pub fn rollback(&mut self) -> (outcome: Result<(), MeshestraError>)
        ensures
            final(self).state() == old(self).state().after_rollback(),
            old(self).rolls_back_with(outcome),
            old(self).state().is_final() ==> final(self).transaction() == old(self).transaction(),
            !old(self).state().is_final() ==> exists|running: &mut Box<T>|
                *running == old(self).transaction() && *final(running) == final(self).transaction()
                    && #[trigger] call_ensures(Box::<T>::rollback, (running,), outcome),
            old(self).state().rollback_is_noop() ==> outcome is Ok,
    {
        match self.state.on_rollback() {
            Some(next) => {
                self.state = next;
                rollback_in_place(&mut self.inner)
            },
            None => Ok(()),
        }
    }
}

} // verus!
