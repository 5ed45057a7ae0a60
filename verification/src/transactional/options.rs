//! The propagation descriptor of a transactional boundary.

use vstd::prelude::*;

verus! {

/// How far a transaction is shielded from the effects of others.
#[derive(Debug, Clone, Copy, PartialEq, Eq, Structural)]
pub enum IsolationLevel {
    /// Reads may see changes that others have not committed.
    ReadUncommitted,
    /// Reads see committed changes only; a repeated read may differ.
    ReadCommitted,
    /// A repeated read of a row gives the same result; new rows may appear.
    RepeatableRead,
    /// Transactions behave as if they ran one after another.
    Serializable,
}

/// How a boundary relates to a transaction that is already ambient.
#[derive(Debug, Clone, Copy, PartialEq, Eq, Structural)]
pub enum Propagation {
    /// Join the ambient transaction, or begin one where there is none.
    Required,
    /// Always begin a transaction; an ambient one is suspended meanwhile.
    RequiresNew,
    /// Join the ambient transaction, or run without one.
    Supports,
    /// Join the ambient transaction; fail where there is none.
    Mandatory,
    /// Run under a savepoint of the ambient transaction.
    Nested,
    /// Run without a transaction; fail where one is ambient.
    Never,
    /// Run without a transaction; an ambient one is suspended meanwhile.
    NotSupported,
}

/// The options of one boundary invocation.
#[derive(Debug, Clone, Copy, PartialEq, Eq)]
pub struct TransactionOptions {
    /// The isolation level asked of the manager, or `None` for its default.
    pub isolation: Option<IsolationLevel>,
    /// The propagation mode.
    pub propagation: Propagation,
    /// Whether the transaction only reads.
    pub read_only: bool,
}

impl TransactionOptions {
    /// The options that a boundary without arguments runs with.
    pub open spec fn standard() -> TransactionOptions {
        TransactionOptions { isolation: None, propagation: Propagation::Required, read_only: false }
    }

    /// The options of a boundary, given what its declaration sets: an
    /// isolation level as set, `Required` and read-write where nothing is set.
    pub open spec fn from_parts_spec(
        isolation: Option<IsolationLevel>,
        propagation: Option<Propagation>,
        read_only: Option<bool>,
    ) -> TransactionOptions {
        TransactionOptions {
            isolation,
            propagation: match propagation {
                Some(mode) => mode,
                None => Propagation::Required,
            },
            read_only: match read_only {
                Some(flag) => flag,
                None => false,
            },
        }
    }

    /// The options of a boundary, given what its declaration sets.
    pub fn from_parts(
        isolation: Option<IsolationLevel>,
        propagation: Option<Propagation>,
        read_only: Option<bool>,
    ) -> (options: TransactionOptions)
        ensures
            options == Self::from_parts_spec(isolation, propagation, read_only),
    {
        TransactionOptions {
            isolation,
            propagation: match propagation {
                Some(mode) => mode,
                None => Propagation::Required,
            },
            read_only: match read_only {
                Some(flag) => flag,
                None => false,
            },
        }
    }
}

impl Default for TransactionOptions {
    fn default() -> (options: TransactionOptions)
        ensures
            options == TransactionOptions::standard(),
    {
        TransactionOptions { isolation: None, propagation: Propagation::Required, read_only: false }
    }
}

} // verus!
