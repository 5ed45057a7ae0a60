//! Aspects: hooks before and after the handling of a request.

use crate::error::MeshestraError;
use std::sync::Arc;
use vstd::prelude::*;

verus! {

/// Hooks round the handling of a request. Each has a default that does
/// nothing, so an aspect implements only what it needs.
pub trait Aspect<Request, Response, Failure> {
    /// Runs before the request is handled; an error keeps it from being
    /// handled.
    fn before(&self, request: &mut Request) -> Result<(), MeshestraError> {
        Ok(())
    }

    /// Runs after the request was answered; an error replaces the response.
    fn after(&self, response: &mut Response) -> Result<(), MeshestraError> {
        Ok(())
    }

    /// Runs after the handling failed.
    fn on_error(&self, error: &Failure) {
    }
}

/// Why a request that ran through an aspect ended in an error.
pub enum AspectError<Failure> {
    /// A hook of the aspect refused; this is its error.
    Aspect(MeshestraError),
    /// The handling failed; this is its error, unchanged.
    Handler(Failure),
}

/// Runs the `before` hook of `aspect` on `request`, once, and hands the
/// request back as the hook left it, with what the hook returned.
pub fn run_before<A, Request, Response, Failure>(aspect: &A, request: Request) -> (ran: (
    Request,
    Result<(), MeshestraError>,
)) where A: Aspect<Request, Response, Failure>
    ensures
        exists|during: &mut Request|
            *during == request && *final(during) == ran.0 && #[trigger] call_ensures(
                A::before,
                (aspect, during),
                ran.1,
            ),
{
    let mut held = request;
    let verdict = before_on::<A, Request, Response, Failure>(aspect, &mut held);
    assert(exists|during: &mut Request|
        *during == request && *final(during) == held && #[trigger] call_ensures(
            A::before,
            (aspect, during),
            verdict,
        ));
    let ran = (held, verdict);
    assert(ran.1 == verdict);
    assert(exists|during: &mut Request|
        *during == request && *final(during) == ran.0 && #[trigger] call_ensures(
            A::before,
            (aspect, during),
            ran.1,
        ));
    ran
}

/// Calls `before` of `aspect` on `request`, once.
fn before_on<A, Request, Response, Failure>(aspect: &A, request: &mut Request) -> (verdict: Result<
    (),
    MeshestraError,
>) where A: Aspect<Request, Response, Failure>
    ensures
        exists|during: &mut Request|
            *during == *old(request) && *final(during) == *final(request)
                && #[trigger] call_ensures(A::before, (aspect, during), verdict),
{
    aspect.before(request)
}

/// Runs the `after` hook of `aspect` on `response`, once, and hands the
/// response back as the hook left it, with what the hook returned.
pub fn run_after<A, Request, Response, Failure>(aspect: &A, response: Response) -> (ran: (
    Response,
    Result<(), MeshestraError>,
)) where A: Aspect<Request, Response, Failure>
    ensures
        exists|during: &mut Response|
            *during == response && *final(during) == ran.0 && #[trigger] call_ensures(
                A::after,
                (aspect, during),
                ran.1,
            ),
{
    let mut held = response;
    let verdict = after_on::<A, Request, Response, Failure>(aspect, &mut held);
    assert(exists|during: &mut Response|
        *during == response && *final(during) == held && #[trigger] call_ensures(
            A::after,
            (aspect, during),
            verdict,
        ));
    let ran = (held, verdict);
    assert(ran.1 == verdict);
    assert(exists|during: &mut Response|
        *during == response && *final(during) == ran.0 && #[trigger] call_ensures(
            A::after,
            (aspect, during),
            ran.1,
        ));
    ran
}

/// Calls `after` of `aspect` on `response`, once.
fn after_on<A, Request, Response, Failure>(aspect: &A, response: &mut Response) -> (verdict:
    Result<(), MeshestraError>) where A: Aspect<Request, Response, Failure>
    ensures
        exists|during: &mut Response|
            *during == *old(response) && *final(during) == *final(response)
                && #[trigger] call_ensures(A::after, (aspect, during), verdict),
{
    aspect.after(response)
}

/// Whether the `before` hook of `aspect`, run on `request`, left `passed`
/// and returned `verdict`.
pub open spec fn before_ran<A, Request, Response, Failure>(
    aspect: &A,
    request: Request,
    passed: Request,
    verdict: Result<(), MeshestraError>,
) -> bool where A: Aspect<Request, Response, Failure> {
    call_ensures(run_before::<A, Request, Response, Failure>, (aspect, request), (passed, verdict))
}

/// Whether the `after` hook of `aspect`, run on `response`, left `sent` and
/// returned `verdict`.
pub open spec fn after_ran<A, Request, Response, Failure>(
    aspect: &A,
    response: Response,
    sent: Response,
    verdict: Result<(), MeshestraError>,
) -> bool where A: Aspect<Request, Response, Failure> {
    call_ensures(run_after::<A, Request, Response, Failure>, (aspect, response), (sent, verdict))
}

/// A `before` hook that ran was called once, on the request it was given,
/// and what it left of the request and what it returned are what is
/// reported of it.
pub proof fn lemma_before_ran<A, Request, Response, Failure>(
    aspect: &A,
    request: Request,
    passed: Request,
    verdict: Result<(), MeshestraError>,
) where A: Aspect<Request, Response, Failure>
    requires
        before_ran::<A, Request, Response, Failure>(aspect, request, passed, verdict),
    ensures
        exists|during: &mut Request|
            *during == request && *final(during) == passed && #[trigger] call_ensures(
                A::before,
                (aspect, during),
                verdict,
            ),
{
}

/// An `after` hook that ran was called once, on the response it was given,
/// and what it left of the response and what it returned are what is
/// reported of it.
pub proof fn lemma_after_ran<A, Request, Response, Failure>(
    aspect: &A,
    response: Response,
    sent: Response,
    verdict: Result<(), MeshestraError>,
) where A: Aspect<Request, Response, Failure>
    requires
        after_ran::<A, Request, Response, Failure>(aspect, response, sent, verdict),
    ensures
        exists|during: &mut Response|
            *during == response && *final(during) == sent && #[trigger] call_ensures(
                A::after,
                (aspect, during),
                verdict,
            ),
{
}

/// What the aspect makes of what the rest of the chain gave: a failure is
/// noted by `on_error` and returned as it is; a response goes through
/// `after`, and is returned as `after` left it unless `after` refused it.
pub open spec fn answered<A, Request, Response, Failure>(
    aspect: &A,
    result: Result<Response, Failure>,
    outcome: Result<Response, AspectError<Failure>>,
) -> bool where A: Aspect<Request, Response, Failure> {
    match result {
        Err(failure) => call_ensures(A::on_error, (aspect, &failure), ()) && outcome == Err::<
            Response,
            AspectError<Failure>,
        >(AspectError::Handler(failure)),
        Ok(response) => exists|sent: Response, verdict: Result<(), MeshestraError>| #[trigger]
            after_ran::<A, Request, Response, Failure>(aspect, response, sent, verdict) && outcome
                == (match verdict {
                Ok(_) => Ok::<Response, AspectError<Failure>>(sent),
                Err(refused) => Err::<Response, AspectError<Failure>>(AspectError::Aspect(refused)),
            }),
    }
}

/// What handling `request` between the hooks of `aspect` gives: `before`
/// runs on the request; where it refuses, the refusal is the outcome and
/// `next` does not run; otherwise `next` runs on the request as `before`
/// left it, and the outcome is what the aspect makes of what `next` gave.
pub open spec fn intercepted<A, Request, Response, Failure, N>(
    aspect: &A,
    request: Request,
    next: N,
    outcome: Result<Response, AspectError<Failure>>,
) -> bool where A: Aspect<Request, Response, Failure>, N: FnOnce(Request) -> Result<Response, Failure> {
    exists|passed: Request, verdict: Result<(), MeshestraError>| #[trigger]
        before_ran::<A, Request, Response, Failure>(aspect, request, passed, verdict) && (match verdict {
            Err(refused) => outcome == Err::<Response, AspectError<Failure>>(
                AspectError::Aspect(refused),
            ),
            Ok(_) => exists|result: Result<Response, Failure>| #[trigger]
                next.ensures((passed,), result) && answered::<A, Request, Response, Failure>(
                    aspect,
                    result,
                    outcome,
                ),
        })
}

/// Runs an aspect round the rest of the chain.
pub struct AspectInterceptor<A> {
    aspect: Arc<A>,
}

impl<A> AspectInterceptor<A> {
    /// The aspect that is run.
    pub closed spec fn aspect(&self) -> A {
        *self.aspect
    }

    /// An interceptor that runs `aspect`.
    pub fn new(aspect: A) -> (interceptor: AspectInterceptor<A>)
        ensures
            interceptor.aspect() == aspect,
    {
        AspectInterceptor { aspect: Arc::new(aspect) }
    }

    /// Handles `request` with `next`, between the hooks of the aspect.
    ///
    /// Where `before` refuses, `next` does not run and the refusal is
    /// returned. Otherwise `next` runs on the request as `before` left it.
    /// Where `next` answers, `after` runs on the response and may refuse
    /// it; the response is returned as `after` left it. Where `next`
    /// fails, `on_error` runs and the failure is returned as it is.
    pub fn intercept<Request, Response, Failure, N>(&self, request: Request, next: N) -> (outcome:
        Result<Response, AspectError<Failure>>) where
        A: Aspect<Request, Response, Failure>,
        N: FnOnce(Request) -> Result<Response, Failure>,

        requires
            forall|passed: Request| next.requires((passed,)),
        ensures
            intercepted::<A, Request, Response, Failure, N>(&self.aspect(), request, next, outcome),
    {
        let (passed, verdict) = run_before::<A, Request, Response, Failure>(&*self.aspect, request);
        assert(before_ran::<A, Request, Response, Failure>(
            &self.aspect(),
            request,
            passed,
            verdict,
        ));
        if let Err(refused) = verdict {
            return Err(AspectError::Aspect(refused));
        }
        let ghost handed = passed;
        let result = next(passed);
        assert(next.ensures((handed,), result));
        match result {
            Ok(response) => {
                let ghost answer = response;
                let (sent, checked) = run_after::<A, Request, Response, Failure>(
                    &*self.aspect,
                    response,
                );
                assert(after_ran::<A, Request, Response, Failure>(
                    &self.aspect(),
                    answer,
                    sent,
                    checked,
                ));
                let outcome = match checked {
                    Ok(_) => Ok(sent),
                    Err(refused) => Err(AspectError::Aspect(refused)),
                };
                assert(answered::<A, Request, Response, Failure>(&self.aspect(), result, outcome));
                outcome
            },
            Err(failure) => {
                self.aspect.on_error(&failure);
                let outcome = Err(AspectError::Handler(failure));
                assert(answered::<A, Request, Response, Failure>(&self.aspect(), result, outcome));
                outcome
            },
        }
    }
}

} // verus!
