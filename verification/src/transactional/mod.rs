//! Transactions: the options of a boundary, the capabilities it consumes,
//! the ambient slot, and the executor that decides between joining,
//! beginning and refusing.

pub mod boundary;
pub mod context;
pub mod executor;
pub mod handle;
pub mod interceptor;
pub mod laws;
pub mod options;

pub use boundary::{
    begin_failure, conclude, plan, Boundary, Completion, Entry, Finalize, PendingBegin, Role,
};
pub use context::{get_current_transaction, TransactionContext};
pub use executor::{completion_for, execute, execute_in, finalize};
pub use handle::{ActiveTransaction, Finalization, Transaction, TransactionManager};
pub use interceptor::{
    finalize_request, settle, wrap, HandlerOutcome, InterceptError, TransactionalInterceptor,
    Verdict,
};
pub use options::{IsolationLevel, Propagation, TransactionOptions};
