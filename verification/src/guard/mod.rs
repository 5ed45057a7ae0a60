//! Guards: checks that a request has to pass before it is handled.

use crate::text::prefixed;
use vstd::prelude::*;

verus! {

/// Why a guard denied a request.
#[derive(Debug, Clone, PartialEq, Eq)]
pub enum GuardError {
    /// The caller is known and may not do this.
    Forbidden(String),
    /// The caller is not known.
    Unauthorized(String),
}

/// The mathematical value of a `GuardError`.
pub enum GuardErrorView {
    Forbidden(Seq<char>),
    Unauthorized(Seq<char>),
}

impl GuardErrorView {
    /// The text a user sees for this error.
    pub open spec fn message(self) -> Seq<char> {
        match self {
            GuardErrorView::Forbidden(detail) => "Forbidden: "@ + detail,
            GuardErrorView::Unauthorized(detail) => "Unauthorized: "@ + detail,
        }
    }

    /// The status a denial is answered with.
    pub open spec fn status(self) -> u16 {
        match self {
            GuardErrorView::Forbidden(_) => 403,
            GuardErrorView::Unauthorized(_) => 401,
        }
    }
}

impl View for GuardError {
    type V = GuardErrorView;

    open spec fn view(&self) -> GuardErrorView {
        match self {
            GuardError::Forbidden(detail) => GuardErrorView::Forbidden(detail@),
            GuardError::Unauthorized(detail) => GuardErrorView::Unauthorized(detail@),
        }
    }
}

impl GuardError {
    /// The text a user sees for this error.
    pub fn message(&self) -> (text: String)
        ensures
            text@ == self@.message(),
    {
        match self {
            GuardError::Forbidden(detail) => prefixed("Forbidden: ", detail.as_str()),
            GuardError::Unauthorized(detail) => prefixed("Unauthorized: ", detail.as_str()),
        }
    }

    /// The status a denial is answered with: 403 where the caller may not,
    /// 401 where the caller is not known.
    pub fn status(&self) -> (code: u16)
        ensures
            code == self@.status(),
    {
        match self {
            GuardError::Forbidden(_) => 403,
            GuardError::Unauthorized(_) => 401,
        }
    }
}

/// A check on requests of type `Request`.
pub trait Guard<Request> {
    /// `Ok` where the request may pass.
    fn can_activate(&self, request: &Request) -> Result<(), GuardError>;
}

/// Whether `verdict` is what `guard` gave when asked about `request`.
pub open spec fn asked<Request, G: Guard<Request> + ?Sized>(
    guard: &G,
    request: &Request,
    verdict: Result<(), GuardError>,
) -> bool {
    call_ensures(G::can_activate, (guard, request), verdict)
}

/// Whether `outcome` is what asking `guards` in order gives where the
/// asking ends at `stopped`: every guard before it let the request pass,
/// and either no guard is left and the request passes, or the guard at
/// `stopped` denied it and its denial is returned.
pub open spec fn decided_at<Request, G: Guard<Request> + ?Sized>(
    guards: Seq<Box<G>>,
    request: &Request,
    stopped: int,
    outcome: Result<(), GuardError>,
) -> bool {
    &&& 0 <= stopped <= guards.len()
    &&& forall|i: int|
        0 <= i < stopped ==> #[trigger] asked::<Request, G>(&*guards[i], request, Ok(()))
    &&& if stopped == guards.len() {
        outcome is Ok
    } else {
        outcome is Err && asked::<Request, G>(&*guards[stopped], request, outcome)
    }
}

/// Whether `outcome` is what asking `guards` in order gives: the denial of
/// the first guard that denies the request, and success where none does.
pub open spec fn decided<Request, G: Guard<Request> + ?Sized>(
    guards: Seq<Box<G>>,
    request: &Request,
    outcome: Result<(), GuardError>,
) -> bool {
    exists|stopped: int| #[trigger] decided_at(guards, request, stopped, outcome)
}

/// Asks `guards` in order and stops at the first that denies the request.
pub fn check_all<Request, G: Guard<Request> + ?Sized>(guards: &Vec<Box<G>>, request: &Request) -> (outcome:
    Result<(), GuardError>)
    ensures
        decided(guards@, request, outcome),
        guards@.len() == 0 ==> outcome is Ok,
{
    let count = guards.len();
    let mut index: usize = 0;
    while index < count
        invariant
            index <= count,
            count == guards@.len(),
            forall|i: int|
                0 <= i < index ==> #[trigger] asked::<Request, G>(&*guards@[i], request, Ok(())),
        decreases count - index,
    {
        let verdict = guards[index].can_activate(request);
        assert(asked::<Request, G>(&*guards@[index as int], request, verdict));
        match verdict {
            Err(denied) => {
                assert(decided_at(guards@, request, index as int, verdict));
                return Err(denied);
            },
            Ok(passed) => {
                assert(verdict == Ok::<(), GuardError>(passed));
                assert(passed == ());
            },
        }
        index = index + 1;
    }
    assert(decided_at(guards@, request, count as int, Ok::<(), GuardError>(())));
    Ok(())
}

/// The guards of a route, in the order in which they are asked.
#[verifier::reject_recursive_types(Request)]
pub struct SharedGuardLayer<Request> {
    guards: Vec<Box<dyn Guard<Request>>>,
}

impl<Request> SharedGuardLayer<Request> {
    /// The guards, in the order in which they are asked.
    pub closed spec fn guards(&self) -> Seq<Box<dyn Guard<Request>>> {
        self.guards@
    }

    /// The number of guards.
    pub open spec fn count(&self) -> nat {
        self.guards().len()
    }

    /// A layer of the given guards.
    pub fn new(guards: Vec<Box<dyn Guard<Request>>>) -> (layer: SharedGuardLayer<Request>)
        ensures
            layer.guards() == guards@,
    {
        SharedGuardLayer { guards }
    }

    /// The number of guards.
    pub fn len(&self) -> (count: usize)
        ensures
            count == self.count(),
    {
        self.guards.len()
    }

    /// Asks the guards in order and stops at the first that denies the
    /// request, whose error is returned. The request passes where no guard
    /// denies it, and so where there is no guard.
    pub fn check(&self, request: &Request) -> (outcome: Result<(), GuardError>)
        ensures
            decided(self.guards(), request, outcome),
            self.count() == 0 ==> outcome is Ok,
    {
        check_all(&self.guards, request)
    }
}

} // verus!
