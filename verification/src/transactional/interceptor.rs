//! The transaction that wraps one handled request.

use crate::error::MeshestraError;
use crate::shared::share;
use crate::transactional::executor::was_begun;
use crate::transactional::handle::{
    already_finalized, ActiveTransaction, Finalization, Transaction, TransactionManager,
};
use crate::transactional::options::TransactionOptions;
use std::sync::Arc;
use vstd::prelude::*;

verus! {

/// What the rest of the chain gave for a request.
#[derive(Debug, Clone, Copy, PartialEq, Eq, Structural)]
pub enum HandlerOutcome {
    /// A response with this status code.
    Responded(u16),
    /// An error in place of a response.
    Failed,
}

/// How the transaction of a request is finalized.
#[derive(Debug, Clone, Copy, PartialEq, Eq, Structural)]
pub enum Verdict {
    /// The work is kept.
    Commit,
    /// The work is discarded.
    Rollback,
}

/// Whether a status code is a server error: 500 to 599.
pub open spec fn is_server_error(status: u16) -> bool {
    500 <= status < 600
}

/// The verdict on the transaction of a request: it is rolled back where the
/// chain failed or answered with a server error, and committed for every
/// other response, a client error included.
pub open spec fn verdict_of(outcome: HandlerOutcome) -> Verdict {
    match outcome {
        HandlerOutcome::Responded(status) => if is_server_error(status) {
            Verdict::Rollback
        } else {
            Verdict::Commit
        },
        HandlerOutcome::Failed => Verdict::Rollback,
    }
}

/// Why an intercepted request ended in an error.
pub enum InterceptError<E> {
    /// The chain failed; this is its error, unchanged.
    Handler(E),
    /// No transaction could be begun, or the transaction of a request that
    /// was answered could not be finalized.
    Transaction(MeshestraError),
}

/// What the interceptor returns, given what the chain gave and what the
/// finalization of the transaction gave: the error of the chain comes first
/// and is never replaced; a response stands unless the finalization failed.
pub open spec fn settled<R, E>(
    handled: Result<R, E>,
    finalized: Result<(), MeshestraError>,
) -> Result<R, InterceptError<E>> {
    match handled {
        Err(error) => Err(InterceptError::Handler(error)),
        Ok(response) => match finalized {
            Ok(_) => Ok(response),
            Err(cause) => Err(InterceptError::Transaction(cause)),
        },
    }
}

/// Whether `begun` is what `manager` gave when asked to begin a transaction
/// with the standard options.
pub open spec fn begun_by<M: TransactionManager + ?Sized>(
    manager: &M,
    begun: Result<Box<dyn Transaction>, MeshestraError>,
) -> bool {
    call_ensures(M::begin, (manager, TransactionOptions::standard()), begun)
}

/// What beginning returns, given what the manager gave: its transaction in
/// an open handle, or its refusal as it is.
pub open spec fn wrapped<T: Transaction + ?Sized>(
    begun: Result<Box<T>, MeshestraError>,
    outcome: Result<ActiveTransaction<T>, MeshestraError>,
) -> bool {
    match begun {
        Ok(transaction) => outcome matches Ok(handle) && handle.transaction() == transaction
            && handle.state() == Finalization::Open,
        Err(cause) => outcome == Err::<ActiveTransaction<T>, MeshestraError>(cause),
    }
}

/// Wraps what a manager gave: its transaction in an open handle, or its
/// refusal as it is.
pub fn wrap<T: Transaction + ?Sized>(begun: Result<Box<T>, MeshestraError>) -> (outcome: Result<
    ActiveTransaction<T>,
    MeshestraError,
>)
    ensures
        wrapped(begun, outcome),
{
    match begun {
        Ok(transaction) => Ok(ActiveTransaction::new(transaction)),
        Err(cause) => Err(cause),
    }
}

/// Wraps each request in a transaction of its own, begun with the standard
/// options.
pub struct TransactionalInterceptor<M: TransactionManager + ?Sized> {
    manager: Arc<M>,
}

impl<M: TransactionManager + ?Sized> TransactionalInterceptor<M> {
    /// The manager that begins the transactions.
    pub closed spec fn manager(&self) -> Arc<M> {
        self.manager
    }

    /// An interceptor that begins its transactions with `manager`.
    pub fn new(manager: Arc<M>) -> (interceptor: TransactionalInterceptor<M>)
        ensures
            interceptor.manager() == manager,
    {
        TransactionalInterceptor { manager }
    }

    /// Another handle to the manager.
    pub fn shared_manager(&self) -> (manager: Arc<M>)
        ensures
            manager == self.manager(),
    {
        share(&self.manager)
    }

    /// Begins the transaction of a request: the manager is asked once, with
    /// the standard options. The transaction it hands out is wrapped in an
    /// open handle; its refusal is returned as it is.
    pub fn begin(&self) -> (outcome: Result<ActiveTransaction, MeshestraError>)
        ensures
            exists|begun: Result<Box<dyn Transaction>, MeshestraError>| #[trigger]
                begun_by(&*self.manager(), begun) && wrapped(begun, outcome),
            outcome matches Ok(transaction) ==> transaction.state() == Finalization::Open,
    {
        let begun = self.manager.begin(TransactionOptions::default());
        assert(begun_by(&*self.manager(), begun));
        wrap(begun)
    }
}

impl HandlerOutcome {
    /// The verdict on the transaction of a request.
    pub fn verdict(self) -> (verdict: Verdict)
        ensures
            verdict == verdict_of(self),
    {
        match self {
            HandlerOutcome::Responded(status) => if 500 <= status && status < 600 {
                Verdict::Rollback
            } else {
                Verdict::Commit
            },
            HandlerOutcome::Failed => Verdict::Rollback,
        }
    }
}

/// Whether `finalized` is what finalizing the handle of a request returns,
/// given what the chain gave: what a commit of the handle returns where the
/// verdict is to commit, and what a rollback of it returns where the
/// verdict is to roll back.
pub open spec fn request_finalized<X: Transaction + ?Sized>(
    handle: ActiveTransaction<X>,
    outcome: HandlerOutcome,
    finalized: Result<(), MeshestraError>,
) -> bool {
    match verdict_of(outcome) {
        Verdict::Commit => handle.commits_with(finalized),
        Verdict::Rollback => handle.rolls_back_with(finalized),
    }
}

/// Finalizes the transaction of a request as the verdict on `outcome` says,
/// and returns what that gave: on an open handle what the commit or the
/// rollback of the transaction returned; on a handle that is finalized
/// already, the error of a second finalization for a commit and success for
/// a rollback, and the transaction is not reached again. The handle holds
/// the transaction as the one call left it.
pub fn finalize_request<X: Transaction + ?Sized>(
    transaction: &mut ActiveTransaction<X>,
    outcome: HandlerOutcome,
) -> (finalized: Result<(), MeshestraError>)
    ensures
        request_finalized(*old(transaction), outcome, finalized),
        verdict_of(outcome) == Verdict::Commit ==> final(transaction).state() == old(
            transaction,
        ).state().after_commit(),
        verdict_of(outcome) == Verdict::Rollback ==> final(transaction).state() == old(
            transaction,
        ).state().after_rollback(),
        final(transaction).state().is_final(),
        old(transaction).state().is_final() ==> final(transaction).transaction() == old(
            transaction,
        ).transaction(),
        (verdict_of(outcome) == Verdict::Commit && old(transaction).state().is_final()) ==> (
        finalized matches Err(e) && e@ == already_finalized()),
        (verdict_of(outcome) == Verdict::Rollback && old(transaction).state().rollback_is_noop())
            ==> finalized is Ok,
        (verdict_of(outcome) == Verdict::Commit && !old(transaction).state().is_final())
            ==> exists|running: &mut Box<X>|
            *running == old(transaction).transaction() && *final(running)
                == final(transaction).transaction() && #[trigger] call_ensures(Box::<X>::commit, (running,), finalized),
        (verdict_of(outcome) == Verdict::Rollback && !old(transaction).state().is_final())
            ==> exists|running: &mut Box<X>|
            *running == old(transaction).transaction() && *final(running)
                == final(transaction).transaction() && #[trigger] call_ensures(Box::<X>::rollback, (running,), finalized),
{
    match outcome.verdict() {
        Verdict::Commit => transaction.commit(),
        Verdict::Rollback => transaction.rollback(),
    }
}

/// Combines what the chain gave with what the finalization gave into what
/// the interceptor returns.
pub fn settle<R, E>(handled: Result<R, E>, finalized: Result<(), MeshestraError>) -> (outcome:
    Result<R, InterceptError<E>>)
    ensures
        outcome == settled(handled, finalized),
{
    match handled {
        Err(error) => Err(InterceptError::Handler(error)),
        Ok(response) => match finalized {
            Ok(_) => Ok(response),
            Err(cause) => Err(InterceptError::Transaction(cause)),
        },
    }
}

/// The open handle on the transaction that the manager gave.
pub open spec fn opened_of<X: Transaction + ?Sized>(
    begun: Result<Box<X>, MeshestraError>,
) -> ActiveTransaction<X> {
    ActiveTransaction::opened(begun->Ok_0)
}

/// Whether `outcome` is the failure of a request for which no transaction
/// could be begun: the refusal of the manager, as it is.
pub open spec fn begin_error<X: Transaction + ?Sized, R, E>(
    begun: Result<Box<X>, MeshestraError>,
    outcome: Result<R, InterceptError<E>>,
) -> bool {
    begun matches Err(cause) && outcome == Err::<R, InterceptError<E>>(
        InterceptError::Transaction(cause),
    )
}

/// Whether `seen` is what the chain gave, as the verdict reads it: a
/// response with the status that `status_of` read off it, or an error.
pub open spec fn seen_by<R, E, S: Fn(&R) -> u16>(
    status_of: S,
    handled: Result<R, E>,
    seen: HandlerOutcome,
) -> bool {
    match handled {
        Ok(response) => exists|code: u16| #[trigger]
            status_of.ensures((&response,), code) && seen == HandlerOutcome::Responded(code),
        Err(_) => seen == HandlerOutcome::Failed,
    }
}

/// Handles a request whose manager has answered: where it gave a
/// transaction, the rest of the chain runs with the open handle on it, the
/// handle is finalized as the verdict on what the chain gave says, and
/// `settle` combines the two; where it refused, nothing runs and the
/// refusal is returned.
pub fn intercept_begun<X, R, E, N, S>(
    begun: Result<Box<X>, MeshestraError>,
    next: N,
    status_of: S,
) -> (outcome: Result<R, InterceptError<E>>) where
    X: Transaction + ?Sized,
    N: FnOnce(&mut ActiveTransaction<X>) -> Result<R, E>,
    S: Fn(&R) -> u16,

    requires
        forall|handle: &mut ActiveTransaction<X>|
            handle.state() == Finalization::Open ==> #[trigger] next.requires((handle,)),
        forall|response: &R| #[trigger] status_of.requires((response,)),
    ensures
        if was_begun(begun) {
            exists|
                handle: &mut ActiveTransaction<X>,
                handled: Result<R, E>,
                seen: HandlerOutcome,
                finalized: Result<(), MeshestraError>,
            |
                #![trigger next.ensures((handle,), handled), request_finalized(*final(handle), seen, finalized)]
                {
                    &&& *handle == opened_of(begun)
                    &&& handle.state() == Finalization::Open
                    &&& next.ensures((handle,), handled)
                    &&& seen_by(status_of, handled, seen)
                    &&& request_finalized(*final(handle), seen, finalized)
                    &&& outcome == settled(handled, finalized)
                }
        } else {
            begin_error(begun, outcome)
        },
{
    match begun {
        Err(cause) => Err(InterceptError::Transaction(cause)),
        Ok(transaction) => {
            proof {
                ActiveTransaction::lemma_opened(transaction);
            }
            let mut handle = ActiveTransaction::new(transaction);
            let handled = next(&mut handle);
            let ghost left = handle;
            let seen = match &handled {
                Ok(response) => HandlerOutcome::Responded(status_of(response)),
                Err(_) => HandlerOutcome::Failed,
            };
            assert(seen_by(status_of, handled, seen));
            let finalized = finalize_request(&mut handle, seen);
            assert(request_finalized(left, seen, finalized));
            settle(handled, finalized)
        },
    }
}

impl<M: TransactionManager + ?Sized> TransactionalInterceptor<M> {
    /// Wraps the handling of a request in a transaction of its own: the
    /// manager is asked to begin one with the standard options; the rest of
    /// the chain runs with the open handle on it; the handle is then
    /// committed, unless the chain failed or answered with a server error,
    /// in which case it is rolled back; and `settle` combines what the
    /// chain gave with what the finalization gave. A chain that has
    /// finalized the handle itself is not finalized again: a second commit
    /// is the error that is returned, a second rollback a success.
    pub fn intercept<R, E, N, S>(&self, next: N, status_of: S) -> (outcome: Result<
        R,
        InterceptError<E>,
    >) where N: FnOnce(&mut ActiveTransaction) -> Result<R, E>, S: Fn(&R) -> u16
        requires
            forall|handle: &mut ActiveTransaction|
                handle.state() == Finalization::Open ==> #[trigger] next.requires((handle,)),
            forall|response: &R| #[trigger] status_of.requires((response,)),
        ensures
            exists|begun: Result<Box<dyn Transaction>, MeshestraError>| #[trigger]
                begun_by(&*self.manager(), begun) && if was_begun(begun) {
                    exists|
                        handle: &mut ActiveTransaction,
                        handled: Result<R, E>,
                        seen: HandlerOutcome,
                        finalized: Result<(), MeshestraError>,
                    |
                        #![trigger next.ensures((handle,), handled), request_finalized(*final(handle), seen, finalized)]
                        {
                            &&& *handle == opened_of(begun)
                            &&& handle.state() == Finalization::Open
                            &&& next.ensures((handle,), handled)
                            &&& seen_by(status_of, handled, seen)
                            &&& request_finalized(*final(handle), seen, finalized)
                            &&& outcome == settled(handled, finalized)
                        }
                } else {
                    begin_error(begun, outcome)
                },
    {
        let begun = self.manager.begin(TransactionOptions::default());
        assert(begun_by(&*self.manager(), begun));
        intercept_begun(begun, next, status_of)
    }
}

} // verus!
