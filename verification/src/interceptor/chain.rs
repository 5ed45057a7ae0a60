//! The chain of interceptors round a handler.

use std::marker::PhantomData;
use vstd::prelude::*;

verus! {

/// What handles a request: the handler of a route, or the rest of a chain.
pub trait Handler<Request, Response, Failure> {
    /// Handles `request`.
    fn handle(&self, request: Request) -> Result<Response, Failure>;
}

/// Code that runs round the handling of a request: it may answer by
/// itself, or hand the request to the rest of the chain and work on what
/// comes back.
pub trait Interceptor<Request, Response, Failure> {
    /// Handles `request`, with `next` standing for the rest of the chain.
    fn intercept(
        &self,
        request: Request,
        next: &dyn Handler<Request, Response, Failure>,
    ) -> Result<Response, Failure>;
}

/// Whether `outcome` is what `handler` gave for `request`.
pub open spec fn handled<Request, Response, Failure, H>(
    handler: &H,
    request: Request,
    outcome: Result<Response, Failure>,
) -> bool where H: Handler<Request, Response, Failure> + ?Sized {
    call_ensures(H::handle, (handler, request), outcome)
}

/// Hands `request` to `interceptor`, with `next` as the rest of its chain,
/// and returns what the interceptor gave.
pub fn intercept_with<Request, Response, Failure, I, N>(
    interceptor: &I,
    request: Request,
    next: &N,
) -> (outcome: Result<Response, Failure>) where
    I: Interceptor<Request, Response, Failure> + ?Sized,
    N: Handler<Request, Response, Failure>,

    ensures
        ({
            let handed: &dyn Handler<Request, Response, Failure> = next;
            call_ensures(I::intercept, (interceptor, request, handed), outcome)
        }),
{
    let handed: &dyn Handler<Request, Response, Failure> = next;
    interceptor.intercept(request, handed)
}

/// The rest of a chain: the interceptors from `position` on, then the
/// handler of the route.
#[verifier::reject_recursive_types(Request)]
#[verifier::reject_recursive_types(Response)]
#[verifier::reject_recursive_types(Failure)]
#[verifier::reject_recursive_types(I)]
#[verifier::reject_recursive_types(H)]
pub struct Next<
    'a,
    Request,
    Response,
    Failure,
    I: ?Sized = dyn Interceptor<Request, Response, Failure>,
    H: ?Sized = dyn Handler<Request, Response, Failure>,
> {
    interceptors: &'a Vec<Box<I>>,
    position: usize,
    handler: &'a H,
    kinds: PhantomData<(Request, Response, Failure)>,
}

/// Whether `outcome` is what the chain from `position` on gives for
/// `request`: where an interceptor is left, what the interceptor at
/// `position` gave for it when it was handed the chain from the next
/// position on as its rest; where none is, what the handler at the end
/// gave.
pub open spec fn ran<'a, Request, Response, Failure, I, H>(
    chain: Seq<Box<I>>,
    position: int,
    end: &'a H,
    request: Request,
    outcome: Result<Response, Failure>,
) -> bool where
    I: Interceptor<Request, Response, Failure> + ?Sized,
    H: Handler<Request, Response, Failure> + ?Sized,
 {
    if 0 <= position < chain.len() {
        exists|rest: Next<'a, Request, Response, Failure, I, H>|
            #![trigger rest.position()]
            rest.chain() == chain && rest.position() == position + 1 && rest.end() == end && ({
                let handed: &dyn Handler<Request, Response, Failure> = &rest;
                call_ensures(I::intercept, (&*chain[position], request, handed), outcome)
            })
    } else {
        handled::<Request, Response, Failure, H>(end, request, outcome)
    }
}

impl<'a, Request, Response, Failure, I, H> Next<'a, Request, Response, Failure, I, H> where
    I: Interceptor<Request, Response, Failure> + ?Sized,
    H: Handler<Request, Response, Failure> + ?Sized,
 {
    /// The interceptors of the chain.
    pub closed spec fn chain(&self) -> Seq<Box<I>> {
        self.interceptors@
    }

    /// How many interceptors of the chain stand before this rest of it.
    pub closed spec fn position(&self) -> int {
        self.position as int
    }

    /// The handler at the end of the chain.
    pub closed spec fn end(&self) -> &H {
        self.handler
    }

    /// The chain of the given interceptors, with `handler` at its end.
    pub fn new(interceptors: &'a Vec<Box<I>>, handler: &'a H) -> (next: Self)
        ensures
            next.chain() == interceptors@,
            next.position() == 0,
            next.end() == handler,
    {
        Next { interceptors, position: 0, handler, kinds: PhantomData }
    }

    /// Hands the request to the rest of the chain: to the next interceptor
    /// where one is left, with what follows it as its rest, and to the
    /// handler of the route where none is. What that gives is returned.
    pub fn run(&self, request: Request) -> (outcome: Result<Response, Failure>)
        ensures
            ran(self.chain(), self.position(), self.end(), request, outcome),
    {
        if self.position < self.interceptors.len() {
            let rest = Next {
                interceptors: self.interceptors,
                position: self.position + 1,
                handler: self.handler,
                kinds: PhantomData,
            };
            let handed: &dyn Handler<Request, Response, Failure> = &rest;
            assert(rest.position() == self.position() + 1);
            assert(rest.chain() == self.chain());
            assert(rest.end() == self.end());
            let outcome = self.interceptors[self.position].intercept(request, handed);
            assert(call_ensures(
                I::intercept,
                (&*self.chain()[self.position()], request, handed),
                outcome,
            ));
            outcome
        } else {
            let outcome = self.handler.handle(request);
            assert(handled::<Request, Response, Failure, H>(self.handler, request, outcome));
            outcome
        }
    }
}

impl<'a, Request, Response, Failure, I, H> Handler<Request, Response, Failure> for Next<
    'a,
    Request,
    Response,
    Failure,
    I,
    H,
> where
    I: Interceptor<Request, Response, Failure> + ?Sized,
    H: Handler<Request, Response, Failure> + ?Sized,
 {
    /// Hands the request to the rest of the chain, as `run` does.
    fn handle(&self, request: Request) -> (outcome: Result<Response, Failure>)
        ensures
            ran(self.chain(), self.position(), self.end(), request, outcome),
    {
        self.run(request)
    }
}

/// Runs `request` through `interceptors`, the first of them outermost, with
/// `handler` at the end of the chain.
pub fn run_chain<Request, Response, Failure, I, H>(
    interceptors: &Vec<Box<I>>,
    request: Request,
    handler: &H,
) -> (outcome: Result<Response, Failure>) where
    I: Interceptor<Request, Response, Failure> + ?Sized,
    H: Handler<Request, Response, Failure> + ?Sized,

    ensures
        ran(interceptors@, 0, handler, request, outcome),
{
    let chain = Next::new(interceptors, handler);
    chain.run(request)
}

/// The interceptors of a route, the first of them outermost.
#[verifier::reject_recursive_types(Request)]
#[verifier::reject_recursive_types(Response)]
#[verifier::reject_recursive_types(Failure)]
pub struct SharedInterceptorLayer<Request, Response, Failure> {
    interceptors: Vec<Box<dyn Interceptor<Request, Response, Failure>>>,
}

impl<Request, Response, Failure> SharedInterceptorLayer<Request, Response, Failure> {
    /// The interceptors, the first of them outermost.
    pub closed spec fn interceptors(&self) -> Seq<Box<dyn Interceptor<Request, Response, Failure>>> {
        self.interceptors@
    }

    /// The number of interceptors.
    pub open spec fn count(&self) -> nat {
        self.interceptors().len()
    }

    /// A layer of the given interceptors.
    pub fn new(interceptors: Vec<Box<dyn Interceptor<Request, Response, Failure>>>) -> (layer:
        SharedInterceptorLayer<Request, Response, Failure>)
        ensures
            layer.interceptors() == interceptors@,
    {
        SharedInterceptorLayer { interceptors }
    }

    /// Runs `request` through the interceptors, the first of them
    /// outermost, with `handler` at the end of the chain: the first
    /// interceptor gets the request, and the handler gets it where there is
    /// no interceptor. What that gives is returned.
    pub fn call(&self, request: Request, handler: &dyn Handler<Request, Response, Failure>) -> (outcome:
        Result<Response, Failure>)
        ensures
            ran(self.interceptors(), 0, handler, request, outcome),
    {
        run_chain(&self.interceptors, request, handler)
    }
}

} // verus!
