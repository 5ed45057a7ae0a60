//! The ambient slot: which transaction, if any, the running scope sees.

use vstd::prelude::*;

verus! {

/// The ambient slot of one logical call scope, as a stack of bindings. Each
/// boundary that publishes or suspends a transaction binds the slot for its
/// own extent; what the innermost binding holds is what every reader sees,
/// and the binding below it is what the slot holds again once the boundary
/// is left. An empty stack is the initial state: no transaction.
pub struct TransactionContext<H> {
    scopes: Vec<Option<H>>,
}

/// What a reader of the slot sees, given the bindings.
pub open spec fn ambient_of<H>(scopes: Seq<Option<H>>) -> Option<H> {
    if scopes.len() == 0 {
        None
    } else {
        scopes.last()
    }
}

impl<H> View for TransactionContext<H> {
    type V = Seq<Option<H>>;

    closed spec fn view(&self) -> Seq<Option<H>> {
        self.scopes@
    }
}

impl<H> TransactionContext<H> {
    /// What a reader of the slot sees.
    pub open spec fn ambient(&self) -> Option<H> {
        ambient_of(self@)
    }

    /// A context in which no transaction is ambient.
    pub fn new() -> (context: TransactionContext<H>)
        ensures
            context@ == Seq::<Option<H>>::empty(),
            context.ambient() is None,
    {
        TransactionContext { scopes: Vec::new() }
    }

    /// The ambient transaction, or `None` where there is none.
    pub fn current(&self) -> (handle: Option<&H>)
        ensures
            match handle {
                Some(h) => self.ambient() == Some(*h),
                None => self.ambient() is None,
            },
    {
        let depth = self.scopes.len();
        if depth == 0 {
            None
        } else {
            self.scopes[depth - 1].as_ref()
        }
    }

    /// Whether a transaction is ambient.
    pub fn is_active(&self) -> (active: bool)
        ensures
            active == self.ambient() is Some,
    {
        self.current().is_some()
    }

    /// The number of bindings in force.
    pub fn depth(&self) -> (depth: usize)
        ensures
            depth == self@.len(),
    {
        self.scopes.len()
    }

    /// Binds the slot to `slot` until the matching `restore`.
    pub fn bind(&mut self, slot: Option<H>)
        ensures
            final(self)@ == old(self)@.push(slot),
            final(self).ambient() == slot,
    {
        self.scopes.push(slot);
    }

    /// Ends the innermost binding and hands back what it held: the slot
    /// reads as it did before the matching `bind`. `None` where no binding
    /// is in force.
    pub fn unbind(&mut self) -> (released: Option<Option<H>>)
        ensures
            old(self)@.len() == 0 ==> released is None && final(self)@ == old(self)@,
            old(self)@.len() > 0 ==> released == Some(old(self)@.last()) && final(self)@ == old(
                self,
            )@.drop_last(),
    {
        self.scopes.pop()
    }

    /// Ends every binding above the first `depth`: the slot reads as it did
    /// when that many bindings were in force. Nothing changes where no more
    /// than `depth` bindings are in force.
    pub fn restore(&mut self, depth: usize)
        ensures
            final(self)@ == restored(old(self)@, depth as nat),
    {
        self.scopes.truncate(depth);
    }
}

/// The bindings after a return to the first `depth` of them.
pub open spec fn restored<H>(scopes: Seq<Option<H>>, depth: nat) -> Seq<Option<H>> {
    if depth <= scopes.len() {
        scopes.take(depth as int)
    } else {
        scopes
    }
}

/// The ambient transaction of `context`, or `None` where there is none.
pub fn get_current_transaction<H>(context: &TransactionContext<H>) -> (handle: Option<&H>)
    ensures
        match handle {
            Some(h) => context.ambient() == Some(*h),
            None => context.ambient() is None,
        },
{
    context.current()
}

} // verus!
