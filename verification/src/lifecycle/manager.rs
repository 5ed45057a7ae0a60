//! The registry of lifecycle hooks and the phases that run them.

use crate::lifecycle::error::{LifecycleError, LifecycleErrorView};
use crate::lifecycle::traits::{
    OnApplicationBootstrap, OnApplicationShutdown, OnModuleDestroy, OnModuleInit,
};
use vstd::prelude::*;
use vstd::string::StringExecFns;

verus! {

/// The four phases in which hooks run.
#[derive(Debug, Clone, Copy, PartialEq, Eq, Structural)]
pub enum Phase {
    /// Every module is initialised, in the order of registration.
    Init,
    /// The application starts, in the order of registration.
    Bootstrap,
    /// The application stops, in the order of registration.
    Shutdown,
    /// Every module is destroyed, in the reverse of the order of registration.
    Destroy,
}

impl Phase {
    /// Whether the first failing hook ends the phase. Start-up phases fail
    /// fast; shutdown phases run every hook whatever the others did.
    pub open spec fn fails_fast_spec(self) -> bool {
        self == Phase::Init || self == Phase::Bootstrap
    }

    /// The position, in the order of registration, of the hook that runs at
    /// the given step of a phase with `count` hooks; `None` once every hook
    /// has run.
    pub open spec fn hook_at_spec(self, count: nat, step: nat) -> Option<nat> {
        if step >= count {
            None
        } else if self == Phase::Destroy {
            Some((count - 1 - step) as nat)
        } else {
            Some(step)
        }
    }

    /// What a phase does after the hook registered under `name` returned
    /// `result`: it ends with the failure of that hook, or goes on.
    pub open spec fn after_hook_spec(
        self,
        name: Seq<char>,
        result: Result<(), LifecycleError>,
    ) -> Option<LifecycleErrorView> {
        match result {
            Err(cause) if self.fails_fast_spec() => Some(
                LifecycleErrorView::HookFailed { service: name, message: cause@.message() },
            ),
            _ => None,
        }
    }

    /// Whether the first failing hook ends the phase.
    pub fn fails_fast(self) -> (fast: bool)
        ensures
            fast == self.fails_fast_spec(),
    {
        match self {
            Phase::Init => true,
            Phase::Bootstrap => true,
            _ => false,
        }
    }

    /// The position, in the order of registration, of the hook that runs at
    /// the given step of a phase with `count` hooks; `None` once every hook
    /// has run.
    pub fn hook_at(self, count: usize, step: usize) -> (position: Option<usize>)
        ensures
            match self.hook_at_spec(count as nat, step as nat) {
                Some(at) => position == Some(at as usize) && at < count,
                None => position is None,
            },
    {
        if step >= count {
            None
        } else {
            match self {
                Phase::Destroy => Some(count - 1 - step),
                _ => Some(step),
            }
        }
    }

    /// What the phase does after the hook registered under `name` returned
    /// `result`: `Some` with the error that ends the phase, or `None` where
    /// the phase goes on. The failure of a shutdown or destroy hook never
    /// ends its phase.
    pub fn after_hook(self, name: &str, result: Result<(), LifecycleError>) -> (end: Option<
        LifecycleError,
    >)
        ensures
            match self.after_hook_spec(name@, result) {
                Some(error) => end matches Some(e) && e@ == error,
                None => end is None,
            },
    {
        match result {
            Err(cause) => if self.fails_fast() {
                Some(
                    LifecycleError::HookFailed {
                        service: String::from_str(name),
                        message: cause.message(),
                    },
                )
            } else {
                None
            },
            Ok(_) => None,
        }
    }
}

/// What a phase runs: one hook of one service. A run takes the hook and
/// hands it back as the run left it, with what the run returned.
pub trait PhaseHook: Sized {
    /// Runs the hook, once.
    fn run_hook(self) -> (Self, Result<(), LifecycleError>);
}

/// Whether `hook`, run once in the state given, was left as `left` and
/// returned `result`.
pub open spec fn hook_ran<B: PhaseHook>(hook: B, left: B, result: Result<(), LifecycleError>) -> bool {
    call_ensures(B::run_hook, (hook,), (left, result))
}

/// Whether `after` is `before` with `hook` added at its end.
pub open spec fn hook_added<B: PhaseHook>(before: Seq<B>, hook: B, after: Seq<B>) -> bool {
    after == before.push(hook)
}

/// Calls `on_module_init` of `service`, once.
fn init_in_place<T: OnModuleInit + ?Sized>(service: &mut T) -> (result: Result<(), LifecycleError>)
    ensures
        exists|running: &mut T|
            &*running == &*old(service) && &*final(running) == &*final(service)
                && #[trigger] call_ensures(T::on_module_init, (running,), result),
{
    service.on_module_init()
}

/// Calls `on_module_init` of `service`, once, and hands the service back as the
/// call left it, with what the call returned.
pub fn init_boxed<T: OnModuleInit + ?Sized>(service: Box<T>) -> (ran: (
    Box<T>,
    Result<(), LifecycleError>,
))
    ensures
        exists|running: &mut T|
            &*running == &*service && &*final(running) == &*ran.0 && #[trigger] call_ensures(
                T::on_module_init,
                (running,),
                ran.1,
            ),
{
    let mut held = service;
    let result = init_in_place::<T>(&mut *held);
    assert(exists|running: &mut T|
        &*running == &*service && &*final(running) == &*held && #[trigger] call_ensures(
            T::on_module_init,
            (running,),
            result,
        ));
    let ran = (held, result);
    assert(ran.1 == result);
    assert(exists|running: &mut T|
        &*running == &*service && &*final(running) == &*ran.0 && #[trigger] call_ensures(
            T::on_module_init,
            (running,),
            ran.1,
        ));
    ran
}

/// Whether `on_module_init`, called once on `service`, left it as `left` and
/// returned `result`.
pub open spec fn initialised<T: OnModuleInit + ?Sized>(
    service: Box<T>,
    left: Box<T>,
    result: Result<(), LifecycleError>,
) -> bool {
    call_ensures(init_boxed::<T>, (service,), (left, result))
}

/// The initialisation hook of a service.
pub struct InitHook<T: OnModuleInit + ?Sized = dyn OnModuleInit> {
    service: Box<T>,
}

impl<T: OnModuleInit + ?Sized> InitHook<T> {
    /// The service whose hook this is.
    pub closed spec fn service(self) -> Box<T> {
        self.service
    }

    /// The hook of `service`.
    pub closed spec fn holding(service: Box<T>) -> InitHook<T> {
        InitHook { service }
    }

    /// A run of the hook is one call of `on_module_init` of its service: the
    /// service is left as the call left it, and the run returns what the
    /// call returned.
    pub proof fn lemma_run(self, left: InitHook<T>, result: Result<(), LifecycleError>)
        requires
            hook_ran(self, left, result),
        ensures
            initialised(self.service(), left.service(), result),
            exists|running: &mut T|
                &*running == &*self.service() && &*final(running) == &*left.service()
                    && #[trigger] call_ensures(T::on_module_init, (running,), result),
    {
    }
}

/// Whether `after` is `before` with the initialisation hook of `service` added
/// at its end, the service in a box and as a service of any type.
pub open spec fn init_added<T: OnModuleInit + 'static>(
    before: Seq<InitHook>,
    service: T,
    after: Seq<InitHook>,
) -> bool {
    let sized: Box<T> = Box::new(service);
    let held: Box<dyn OnModuleInit> = sized;
    hook_added(before, InitHook::holding(held), after)
}

impl<T: OnModuleInit + ?Sized> PhaseHook for InitHook<T> {
    fn run_hook(self) -> (ran: (InitHook<T>, Result<(), LifecycleError>))
        ensures
            initialised(self.service(), ran.0.service(), ran.1),
    {
        let (service, result) = init_boxed::<T>(self.service);
        (InitHook { service }, result)
    }
}

/// Calls `on_application_bootstrap` of `service`, once.
fn bootstrap_in_place<T: OnApplicationBootstrap + ?Sized>(service: &mut T) -> (result: Result<(), LifecycleError>)
    ensures
        exists|running: &mut T|
            &*running == &*old(service) && &*final(running) == &*final(service)
                && #[trigger] call_ensures(T::on_application_bootstrap, (running,), result),
{
    service.on_application_bootstrap()
}

/// Calls `on_application_bootstrap` of `service`, once, and hands the service back as the
/// call left it, with what the call returned.
pub fn bootstrap_boxed<T: OnApplicationBootstrap + ?Sized>(service: Box<T>) -> (ran: (
    Box<T>,
    Result<(), LifecycleError>,
))
    ensures
        exists|running: &mut T|
            &*running == &*service && &*final(running) == &*ran.0 && #[trigger] call_ensures(
                T::on_application_bootstrap,
                (running,),
                ran.1,
            ),
{
    let mut held = service;
    let result = bootstrap_in_place::<T>(&mut *held);
    assert(exists|running: &mut T|
        &*running == &*service && &*final(running) == &*held && #[trigger] call_ensures(
            T::on_application_bootstrap,
            (running,),
            result,
        ));
    let ran = (held, result);
    assert(ran.1 == result);
    assert(exists|running: &mut T|
        &*running == &*service && &*final(running) == &*ran.0 && #[trigger] call_ensures(
            T::on_application_bootstrap,
            (running,),
            ran.1,
        ));
    ran
}

/// Whether `on_application_bootstrap`, called once on `service`, left it as `left` and
/// returned `result`.
pub open spec fn bootstrapped<T: OnApplicationBootstrap + ?Sized>(
    service: Box<T>,
    left: Box<T>,
    result: Result<(), LifecycleError>,
) -> bool {
    call_ensures(bootstrap_boxed::<T>, (service,), (left, result))
}

/// The bootstrap hook of a service.
pub struct BootstrapHook<T: OnApplicationBootstrap + ?Sized = dyn OnApplicationBootstrap> {
    service: Box<T>,
}

impl<T: OnApplicationBootstrap + ?Sized> BootstrapHook<T> {
    /// The service whose hook this is.
    pub closed spec fn service(self) -> Box<T> {
        self.service
    }

    /// The hook of `service`.
    pub closed spec fn holding(service: Box<T>) -> BootstrapHook<T> {
        BootstrapHook { service }
    }

    /// A run of the hook is one call of `on_application_bootstrap` of its service: the
    /// service is left as the call left it, and the run returns what the
    /// call returned.
    pub proof fn lemma_run(self, left: BootstrapHook<T>, result: Result<(), LifecycleError>)
        requires
            hook_ran(self, left, result),
        ensures
            bootstrapped(self.service(), left.service(), result),
            exists|running: &mut T|
                &*running == &*self.service() && &*final(running) == &*left.service()
                    && #[trigger] call_ensures(T::on_application_bootstrap, (running,), result),
    {
    }
}

/// Whether `after` is `before` with the bootstrap hook of `service` added
/// at its end, the service in a box and as a service of any type.
pub open spec fn bootstrap_added<T: OnApplicationBootstrap + 'static>(
    before: Seq<BootstrapHook>,
    service: T,
    after: Seq<BootstrapHook>,
) -> bool {
    let sized: Box<T> = Box::new(service);
    let held: Box<dyn OnApplicationBootstrap> = sized;
    hook_added(before, BootstrapHook::holding(held), after)
}

impl<T: OnApplicationBootstrap + ?Sized> PhaseHook for BootstrapHook<T> {
    fn run_hook(self) -> (ran: (BootstrapHook<T>, Result<(), LifecycleError>))
        ensures
            bootstrapped(self.service(), ran.0.service(), ran.1),
    {
        let (service, result) = bootstrap_boxed::<T>(self.service);
        (BootstrapHook { service }, result)
    }
}

/// Calls `on_application_shutdown` of `service`, once.
fn shutdown_in_place<T: OnApplicationShutdown + ?Sized>(service: &mut T) -> (result: Result<(), LifecycleError>)
    ensures
        exists|running: &mut T|
            &*running == &*old(service) && &*final(running) == &*final(service)
                && #[trigger] call_ensures(T::on_application_shutdown, (running,), result),
{
    service.on_application_shutdown()
}

/// Calls `on_application_shutdown` of `service`, once, and hands the service back as the
/// call left it, with what the call returned.
pub fn shutdown_boxed<T: OnApplicationShutdown + ?Sized>(service: Box<T>) -> (ran: (
    Box<T>,
    Result<(), LifecycleError>,
))
    ensures
        exists|running: &mut T|
            &*running == &*service && &*final(running) == &*ran.0 && #[trigger] call_ensures(
                T::on_application_shutdown,
                (running,),
                ran.1,
            ),
{
    let mut held = service;
    let result = shutdown_in_place::<T>(&mut *held);
    assert(exists|running: &mut T|
        &*running == &*service && &*final(running) == &*held && #[trigger] call_ensures(
            T::on_application_shutdown,
            (running,),
            result,
        ));
    let ran = (held, result);
    assert(ran.1 == result);
    assert(exists|running: &mut T|
        &*running == &*service && &*final(running) == &*ran.0 && #[trigger] call_ensures(
            T::on_application_shutdown,
            (running,),
            ran.1,
        ));
    ran
}

/// Whether `on_application_shutdown`, called once on `service`, left it as `left` and
/// returned `result`.
pub open spec fn shut_down<T: OnApplicationShutdown + ?Sized>(
    service: Box<T>,
    left: Box<T>,
    result: Result<(), LifecycleError>,
) -> bool {
    call_ensures(shutdown_boxed::<T>, (service,), (left, result))
}

/// The shutdown hook of a service.
pub struct ShutdownHook<T: OnApplicationShutdown + ?Sized = dyn OnApplicationShutdown> {
    service: Box<T>,
}

impl<T: OnApplicationShutdown + ?Sized> ShutdownHook<T> {
    /// The service whose hook this is.
    pub closed spec fn service(self) -> Box<T> {
        self.service
    }

    /// The hook of `service`.
    pub closed spec fn holding(service: Box<T>) -> ShutdownHook<T> {
        ShutdownHook { service }
    }

    /// A run of the hook is one call of `on_application_shutdown` of its service: the
    /// service is left as the call left it, and the run returns what the
    /// call returned.
    pub proof fn lemma_run(self, left: ShutdownHook<T>, result: Result<(), LifecycleError>)
        requires
            hook_ran(self, left, result),
        ensures
            shut_down(self.service(), left.service(), result),
            exists|running: &mut T|
                &*running == &*self.service() && &*final(running) == &*left.service()
                    && #[trigger] call_ensures(T::on_application_shutdown, (running,), result),
    {
    }
}

/// Whether `after` is `before` with the shutdown hook of `service` added
/// at its end, the service in a box and as a service of any type.
pub open spec fn shutdown_added<T: OnApplicationShutdown + 'static>(
    before: Seq<ShutdownHook>,
    service: T,
    after: Seq<ShutdownHook>,
) -> bool {
    let sized: Box<T> = Box::new(service);
    let held: Box<dyn OnApplicationShutdown> = sized;
    hook_added(before, ShutdownHook::holding(held), after)
}

impl<T: OnApplicationShutdown + ?Sized> PhaseHook for ShutdownHook<T> {
    fn run_hook(self) -> (ran: (ShutdownHook<T>, Result<(), LifecycleError>))
        ensures
            shut_down(self.service(), ran.0.service(), ran.1),
    {
        let (service, result) = shutdown_boxed::<T>(self.service);
        (ShutdownHook { service }, result)
    }
}

/// Calls `on_module_destroy` of `service`, once.
fn destroy_in_place<T: OnModuleDestroy + ?Sized>(service: &mut T) -> (result: Result<(), LifecycleError>)
    ensures
        exists|running: &mut T|
            &*running == &*old(service) && &*final(running) == &*final(service)
                && #[trigger] call_ensures(T::on_module_destroy, (running,), result),
{
    service.on_module_destroy()
}

/// Calls `on_module_destroy` of `service`, once, and hands the service back as the
/// call left it, with what the call returned.
pub fn destroy_boxed<T: OnModuleDestroy + ?Sized>(service: Box<T>) -> (ran: (
    Box<T>,
    Result<(), LifecycleError>,
))
    ensures
        exists|running: &mut T|
            &*running == &*service && &*final(running) == &*ran.0 && #[trigger] call_ensures(
                T::on_module_destroy,
                (running,),
                ran.1,
            ),
{
    let mut held = service;
    let result = destroy_in_place::<T>(&mut *held);
    assert(exists|running: &mut T|
        &*running == &*service && &*final(running) == &*held && #[trigger] call_ensures(
            T::on_module_destroy,
            (running,),
            result,
        ));
    let ran = (held, result);
    assert(ran.1 == result);
    assert(exists|running: &mut T|
        &*running == &*service && &*final(running) == &*ran.0 && #[trigger] call_ensures(
            T::on_module_destroy,
            (running,),
            ran.1,
        ));
    ran
}

/// Whether `on_module_destroy`, called once on `service`, left it as `left` and
/// returned `result`.
pub open spec fn destroyed<T: OnModuleDestroy + ?Sized>(
    service: Box<T>,
    left: Box<T>,
    result: Result<(), LifecycleError>,
) -> bool {
    call_ensures(destroy_boxed::<T>, (service,), (left, result))
}

/// The destroy hook of a service.
pub struct DestroyHook<T: OnModuleDestroy + ?Sized = dyn OnModuleDestroy> {
    service: Box<T>,
}

impl<T: OnModuleDestroy + ?Sized> DestroyHook<T> {
    /// The service whose hook this is.
    pub closed spec fn service(self) -> Box<T> {
        self.service
    }

    /// The hook of `service`.
    pub closed spec fn holding(service: Box<T>) -> DestroyHook<T> {
        DestroyHook { service }
    }

    /// A run of the hook is one call of `on_module_destroy` of its service: the
    /// service is left as the call left it, and the run returns what the
    /// call returned.
    pub proof fn lemma_run(self, left: DestroyHook<T>, result: Result<(), LifecycleError>)
        requires
            hook_ran(self, left, result),
        ensures
            destroyed(self.service(), left.service(), result),
            exists|running: &mut T|
                &*running == &*self.service() && &*final(running) == &*left.service()
                    && #[trigger] call_ensures(T::on_module_destroy, (running,), result),
    {
    }
}

/// Whether `after` is `before` with the destroy hook of `service` added
/// at its end, the service in a box and as a service of any type.
pub open spec fn destroy_added<T: OnModuleDestroy + 'static>(
    before: Seq<DestroyHook>,
    service: T,
    after: Seq<DestroyHook>,
) -> bool {
    let sized: Box<T> = Box::new(service);
    let held: Box<dyn OnModuleDestroy> = sized;
    hook_added(before, DestroyHook::holding(held), after)
}

impl<T: OnModuleDestroy + ?Sized> PhaseHook for DestroyHook<T> {
    fn run_hook(self) -> (ran: (DestroyHook<T>, Result<(), LifecycleError>))
        ensures
            destroyed(self.service(), ran.0.service(), ran.1),
    {
        let (service, result) = destroy_boxed::<T>(self.service);
        (DestroyHook { service }, result)
    }
}

/// Whether the hook that runs at `step` of the phase was run once, from the
/// state it has in `hooks` to the state it has in `left`, and gave a result
/// after which the phase goes on.
pub open spec fn step_went_on<B: PhaseHook>(
    phase: Phase,
    names: Seq<Seq<char>>,
    hooks: Seq<B>,
    left: Seq<B>,
    step: int,
) -> bool {
    &&& phase.hook_at_spec(hooks.len(), step as nat) matches Some(at)
    &&& exists|result: Result<(), LifecycleError>| #[trigger]
        hook_ran(hooks[at as int], left[at as int], result) && phase.after_hook_spec(
            names[at as int],
            result,
        ) is None
}

/// Whether the hook that runs at `step` of the phase was run once, from the
/// state it has in `hooks` to the state it has in `left`, and gave a
/// failure that ends the phase with `outcome`.
pub open spec fn step_ended<B: PhaseHook>(
    phase: Phase,
    names: Seq<Seq<char>>,
    hooks: Seq<B>,
    left: Seq<B>,
    step: int,
    outcome: Result<(), LifecycleError>,
) -> bool {
    &&& phase.hook_at_spec(hooks.len(), step as nat) matches Some(at)
    &&& exists|result: Result<(), LifecycleError>| #[trigger]
        hook_ran(hooks[at as int], left[at as int], result) && (phase.after_hook_spec(
            names[at as int],
            result,
        ) matches Some(error) && outcome matches Err(e) && e@ == error)
}

/// Whether the hook that would run at `step` of the phase did not run: it
/// is in `left` as it was in `hooks`.
pub open spec fn step_skipped<B: PhaseHook>(phase: Phase, hooks: Seq<B>, left: Seq<B>, step: int) -> bool {
    phase.hook_at_spec(hooks.len(), step as nat) matches Some(at) && left[at as int]
        == hooks[at as int]
}

/// Whether `outcome` and `left` are what the phase gives where it ends at
/// the step `stopped`: every step before it ran its hook once and went on;
/// either no step is left and the phase succeeds, or the hook of that step
/// ran once and failed, and the phase fails with the failure of that hook;
/// and the hooks of the steps after it did not run.
pub open spec fn phase_ran_until<B: PhaseHook>(
    phase: Phase,
    names: Seq<Seq<char>>,
    hooks: Seq<B>,
    left: Seq<B>,
    stopped: int,
    outcome: Result<(), LifecycleError>,
) -> bool {
    &&& 0 <= stopped <= hooks.len()
    &&& names.len() == hooks.len()
    &&& left.len() == hooks.len()
    &&& forall|step: int|
        0 <= step < stopped ==> #[trigger] step_went_on(phase, names, hooks, left, step)
    &&& forall|step: int|
        stopped < step < hooks.len() ==> #[trigger] step_skipped(phase, hooks, left, step)
    &&& if stopped == hooks.len() {
        outcome is Ok
    } else {
        step_ended(phase, names, hooks, left, stopped, outcome)
    }
}

/// Whether `outcome` and `left` are what running the phase on `hooks`
/// gives: the hooks run one by one in the order of the phase, each once,
/// from the state it had before the phase to the state it has in `left`; a
/// start-up phase ends with the failure of the first hook that fails,
/// under the name of that hook, and the hooks after it do not run; a
/// shutdown phase runs every hook and succeeds.
pub open spec fn phase_ran<B: PhaseHook>(
    phase: Phase,
    names: Seq<Seq<char>>,
    hooks: Seq<B>,
    left: Seq<B>,
    outcome: Result<(), LifecycleError>,
) -> bool {
    exists|stopped: int| #[trigger] phase_ran_until(phase, names, hooks, left, stopped, outcome)
}

/// The position of the hook that runs at `step`, where a step is left.
fn position_at(phase: Phase, count: usize, step: usize) -> (at: usize)
    requires
        step < count,
    ensures
        phase.hook_at_spec(count as nat, step as nat) == Some(at as nat),
        at < count,
{
    match phase {
        Phase::Destroy => count - 1 - step,
        _ => step,
    }
}

/// One registered hook: the name it was registered under, and the hook.
struct Hook<B> {
    name: String,
    hook: B,
}

/// The hooks of one phase, in the order of registration.
struct HookList<B> {
    hooks: Vec<Hook<B>>,
}

impl<B: PhaseHook> HookList<B> {
    /// The names, in the order of registration.
    spec fn names(&self) -> Seq<Seq<char>> {
        Seq::new(self.hooks@.len(), |i: int| self.hooks@[i].name@)
    }

    /// The hooks, in the order of registration.
    spec fn hooks(&self) -> Seq<B> {
        Seq::new(self.hooks@.len(), |i: int| self.hooks@[i].hook)
    }

    fn new() -> (list: HookList<B>)
        ensures
            list.names() == Seq::<Seq<char>>::empty(),
            list.hooks() == Seq::<B>::empty(),
    {
        let list = HookList { hooks: Vec::new() };
        assert(list.names() =~= Seq::<Seq<char>>::empty());
        assert(list.hooks() =~= Seq::<B>::empty());
        list
    }

    fn add(&mut self, hook: B, name: &str)
        ensures
            final(self).names() == old(self).names().push(name@),
            final(self).hooks() == old(self).hooks().push(hook),
            hook_added(old(self).hooks(), hook, final(self).hooks()),
    {
        self.hooks.push(Hook { name: String::from_str(name), hook });
        assert(self.names() =~= old(self).names().push(name@));
        assert(self.hooks() =~= old(self).hooks().push(hook));
    }

    fn len(&self) -> (count: usize)
        ensures
            count == self.names().len(),
            count == self.hooks().len(),
    {
        self.hooks.len()
    }

    fn name(&self, position: usize) -> (name: &str)
        requires
            position < self.names().len(),
        ensures
            name@ == self.names()[position as int],
    {
        self.hooks[position].name.as_str()
    }

    /// Runs the hooks in the order of the phase, each once, and ends as the
    /// phase says: a start-up phase at the first hook that fails, a
    /// shutdown phase after the last hook. A hook is taken out of the list
    /// for its run and put back in its place as the run left it.
    fn run(&mut self, phase: Phase) -> (outcome: Result<(), LifecycleError>)
        ensures
            final(self).names() == old(self).names(),
            final(self).hooks().len() == old(self).hooks().len(),
            phase_ran(phase, old(self).names(), old(self).hooks(), final(self).hooks(), outcome),
            !phase.fails_fast_spec() ==> outcome is Ok,
            old(self).hooks().len() == 0 ==> outcome is Ok,
            outcome matches Err(e) ==> exists|i: int|
                0 <= i < old(self).names().len() && (
                e@ matches LifecycleErrorView::HookFailed { service, .. } && service
                    == #[trigger] old(self).names()[i]),
    {
        let count = self.hooks.len();
        let mut step: usize = 0;
        while step < count
            invariant
                step <= count,
                count == self.hooks@.len(),
                count == old(self).hooks@.len(),
                self.names() == old(self).names(),
                forall|later: int|
                    step <= later < count ==> #[trigger] step_skipped(
                        phase,
                        old(self).hooks(),
                        self.hooks(),
                        later,
                    ),
                forall|earlier: int|
                    0 <= earlier < step ==> #[trigger] step_went_on(
                        phase,
                        old(self).names(),
                        old(self).hooks(),
                        self.hooks(),
                        earlier,
                    ),
            decreases count - step,
        {
            let position = position_at(phase, count, step);
            let ghost before = self.hooks@;
            let ghost found = self.hooks();
            assert(step_skipped(phase, old(self).hooks(), found, step as int));
            let Hook { name, hook } = self.hooks.remove(position);
            let ghost label = name;
            let ghost given = hook;
            let (left, result) = hook.run_hook();
            assert(hook_ran(given, left, result));
            self.hooks.insert(position, Hook { name, hook: left });
            proof {
                assert(self.hooks@ =~= before.update(
                    position as int,
                    Hook { name: label, hook: left },
                ));
                assert(self.names() =~= old(self).names());
                assert(self.hooks() =~= found.update(position as int, left));
                assert(old(self).hooks()[position as int] == given);
                assert forall|later: int| step + 1 <= later < count implies #[trigger] step_skipped(
                    phase,
                    old(self).hooks(),
                    self.hooks(),
                    later,
                ) by {
                    assert(step_skipped(phase, old(self).hooks(), found, later));
                }
                assert forall|earlier: int| 0 <= earlier < step implies #[trigger] step_went_on(
                    phase,
                    old(self).names(),
                    old(self).hooks(),
                    self.hooks(),
                    earlier,
                ) by {
                    assert(step_went_on(
                        phase,
                        old(self).names(),
                        old(self).hooks(),
                        found,
                        earlier,
                    ));
                    let at = phase.hook_at_spec(count as nat, earlier as nat)->0;
                    assert(at != position);
                    assert(self.hooks()[at as int] == found[at as int]);
                }
                assert(self.hooks()[position as int] == left);
                assert(hook_ran(
                    old(self).hooks()[position as int],
                    self.hooks()[position as int],
                    result,
                ));
            }
            let end = phase.after_hook(self.name(position), result);
            match end {
                Some(error) => {
                    let outcome = Err(error);
                    proof {
                        assert(step_ended(
                            phase,
                            old(self).names(),
                            old(self).hooks(),
                            self.hooks(),
                            step as int,
                            outcome,
                        ));
                        assert(phase_ran_until(
                            phase,
                            old(self).names(),
                            old(self).hooks(),
                            self.hooks(),
                            step as int,
                            outcome,
                        ));
                    }
                    return outcome;
                },
                None => {
                    assert(step_went_on(
                        phase,
                        old(self).names(),
                        old(self).hooks(),
                        self.hooks(),
                        step as int,
                    ));
                },
            }
            step = step + 1;
        }
        let outcome = Ok(());
        proof {
            assert(phase_ran_until(
                phase,
                old(self).names(),
                old(self).hooks(),
                self.hooks(),
                count as int,
                outcome,
            ));
        }
        outcome
    }
}

/// The hooks of every phase.
pub struct LifecycleManager {
    on_init_hooks: HookList<InitHook>,
    on_bootstrap_hooks: HookList<BootstrapHook>,
    on_shutdown_hooks: HookList<ShutdownHook>,
    on_destroy_hooks: HookList<DestroyHook>,
}

impl LifecycleManager {
    /// The names of the hooks of a phase, in the order of registration.
    pub closed spec fn names(&self, phase: Phase) -> Seq<Seq<char>> {
        match phase {
            Phase::Init => self.on_init_hooks.names(),
            Phase::Bootstrap => self.on_bootstrap_hooks.names(),
            Phase::Shutdown => self.on_shutdown_hooks.names(),
            Phase::Destroy => self.on_destroy_hooks.names(),
        }
    }

    /// The initialisation hooks, in the order of registration.
    pub closed spec fn init_hooks(&self) -> Seq<InitHook> {
        self.on_init_hooks.hooks()
    }

    /// The bootstrap hooks, in the order of registration.
    pub closed spec fn bootstrap_hooks(&self) -> Seq<BootstrapHook> {
        self.on_bootstrap_hooks.hooks()
    }

    /// The shutdown hooks, in the order of registration.
    pub closed spec fn shutdown_hooks(&self) -> Seq<ShutdownHook> {
        self.on_shutdown_hooks.hooks()
    }

    /// The destroy hooks, in the order of registration.
    pub closed spec fn destroy_hooks(&self) -> Seq<DestroyHook> {
        self.on_destroy_hooks.hooks()
    }

    /// Whether both managers hold the same names in every phase.
    pub open spec fn same_names(&self, other: &LifecycleManager) -> bool {
        &&& self.names(Phase::Init) == other.names(Phase::Init)
        &&& self.names(Phase::Bootstrap) == other.names(Phase::Bootstrap)
        &&& self.names(Phase::Shutdown) == other.names(Phase::Shutdown)
        &&& self.names(Phase::Destroy) == other.names(Phase::Destroy)
    }

    /// The names of every phase but `phase` are the same in both managers,
    /// and `phase` has `name` added at its end.
    pub open spec fn registered(&self, before: &LifecycleManager, phase: Phase, name: Seq<char>) -> bool {
        &&& self.names(Phase::Init) == if phase == Phase::Init {
            before.names(Phase::Init).push(name)
        } else {
            before.names(Phase::Init)
        }
        &&& self.names(Phase::Bootstrap) == if phase == Phase::Bootstrap {
            before.names(Phase::Bootstrap).push(name)
        } else {
            before.names(Phase::Bootstrap)
        }
        &&& self.names(Phase::Shutdown) == if phase == Phase::Shutdown {
            before.names(Phase::Shutdown).push(name)
        } else {
            before.names(Phase::Shutdown)
        }
        &&& self.names(Phase::Destroy) == if phase == Phase::Destroy {
            before.names(Phase::Destroy).push(name)
        } else {
            before.names(Phase::Destroy)
        }
    }

    /// A manager without hooks.
    pub fn new() -> (manager: LifecycleManager)
        ensures
            manager.names(Phase::Init).len() == 0,
            manager.names(Phase::Bootstrap).len() == 0,
            manager.names(Phase::Shutdown).len() == 0,
            manager.names(Phase::Destroy).len() == 0,
    {
        LifecycleManager {
            on_init_hooks: HookList::new(),
            on_bootstrap_hooks: HookList::new(),
            on_shutdown_hooks: HookList::new(),
            on_destroy_hooks: HookList::new(),
        }
    }

    /// Registers an initialisation hook under `name`, after those already
    /// registered.
    pub fn register_init<T: OnModuleInit + 'static>(&mut self, service: T, name: &str)
        ensures
            final(self).registered(old(self), Phase::Init, name@),
            init_added(old(self).init_hooks(), service, final(self).init_hooks()),
            final(self).bootstrap_hooks() == old(self).bootstrap_hooks(),
            final(self).shutdown_hooks() == old(self).shutdown_hooks(),
            final(self).destroy_hooks() == old(self).destroy_hooks(),
    {
        let sized: Box<T> = Box::new(service);
        let held: Box<dyn OnModuleInit> = sized;
        self.on_init_hooks.add(InitHook { service: held }, name);
    }

    /// Registers a bootstrap hook under `name`, after those already
    /// registered.
    pub fn register_bootstrap<T: OnApplicationBootstrap + 'static>(&mut self, service: T, name: &str)
        ensures
            final(self).registered(old(self), Phase::Bootstrap, name@),
            bootstrap_added(old(self).bootstrap_hooks(), service, final(self).bootstrap_hooks()),
            final(self).init_hooks() == old(self).init_hooks(),
            final(self).shutdown_hooks() == old(self).shutdown_hooks(),
            final(self).destroy_hooks() == old(self).destroy_hooks(),
    {
        let sized: Box<T> = Box::new(service);
        let held: Box<dyn OnApplicationBootstrap> = sized;
        self.on_bootstrap_hooks.add(BootstrapHook { service: held }, name);
    }

    /// Registers a shutdown hook under `name`, after those already
    /// registered.
    pub fn register_shutdown<T: OnApplicationShutdown + 'static>(&mut self, service: T, name: &str)
        ensures
            final(self).registered(old(self), Phase::Shutdown, name@),
            shutdown_added(old(self).shutdown_hooks(), service, final(self).shutdown_hooks()),
            final(self).init_hooks() == old(self).init_hooks(),
            final(self).bootstrap_hooks() == old(self).bootstrap_hooks(),
            final(self).destroy_hooks() == old(self).destroy_hooks(),
    {
        let sized: Box<T> = Box::new(service);
        let held: Box<dyn OnApplicationShutdown> = sized;
        self.on_shutdown_hooks.add(ShutdownHook { service: held }, name);
    }

    /// Registers a destroy hook under `name`, after those already
    /// registered.
    pub fn register_destroy<T: OnModuleDestroy + 'static>(&mut self, service: T, name: &str)
        ensures
            final(self).registered(old(self), Phase::Destroy, name@),
            destroy_added(old(self).destroy_hooks(), service, final(self).destroy_hooks()),
            final(self).init_hooks() == old(self).init_hooks(),
            final(self).bootstrap_hooks() == old(self).bootstrap_hooks(),
            final(self).shutdown_hooks() == old(self).shutdown_hooks(),
    {
        let sized: Box<T> = Box::new(service);
        let held: Box<dyn OnModuleDestroy> = sized;
        self.on_destroy_hooks.add(DestroyHook { service: held }, name);
    }

    /// Runs the initialisation hooks in the order of registration, each
    /// once, and stops at the first that fails: the error names that hook's
    /// service and carries the message of its failure. Without hooks the
    /// phase succeeds.
    pub fn call_module_init(&mut self) -> (outcome: Result<(), LifecycleError>)
        ensures
            final(self).same_names(old(self)),
            phase_ran(
                Phase::Init,
                old(self).names(Phase::Init),
                old(self).init_hooks(),
                final(self).init_hooks(),
                outcome,
            ),
            final(self).bootstrap_hooks() == old(self).bootstrap_hooks(),
            final(self).shutdown_hooks() == old(self).shutdown_hooks(),
            final(self).destroy_hooks() == old(self).destroy_hooks(),
            old(self).names(Phase::Init).len() == 0 ==> outcome is Ok,
            outcome matches Err(e) ==> exists|i: int|
                0 <= i < old(self).names(Phase::Init).len() && (
                e@ matches LifecycleErrorView::HookFailed { service, .. } && service
                    == #[trigger] old(self).names(Phase::Init)[i]),
    {
        self.on_init_hooks.run(Phase::Init)
    }

    /// Runs the bootstrap hooks in the order of registration, each once,
    /// and stops at the first that fails: the error names that hook's
    /// service and carries the message of its failure. Without hooks the
    /// phase succeeds.
    pub fn call_application_bootstrap(&mut self) -> (outcome: Result<(), LifecycleError>)
        ensures
            final(self).same_names(old(self)),
            phase_ran(
                Phase::Bootstrap,
                old(self).names(Phase::Bootstrap),
                old(self).bootstrap_hooks(),
                final(self).bootstrap_hooks(),
                outcome,
            ),
            final(self).init_hooks() == old(self).init_hooks(),
            final(self).shutdown_hooks() == old(self).shutdown_hooks(),
            final(self).destroy_hooks() == old(self).destroy_hooks(),
            old(self).names(Phase::Bootstrap).len() == 0 ==> outcome is Ok,
            outcome matches Err(e) ==> exists|i: int|
                0 <= i < old(self).names(Phase::Bootstrap).len() && (
                e@ matches LifecycleErrorView::HookFailed { service, .. } && service
                    == #[trigger] old(self).names(Phase::Bootstrap)[i]),
    {
        self.on_bootstrap_hooks.run(Phase::Bootstrap)
    }

    /// Runs every shutdown hook in the order of registration, each once. A
    /// hook that fails does not keep the others from running, and the phase
    /// succeeds.
    pub fn call_application_shutdown(&mut self) -> (outcome: Result<(), LifecycleError>)
        ensures
            final(self).same_names(old(self)),
            phase_ran(
                Phase::Shutdown,
                old(self).names(Phase::Shutdown),
                old(self).shutdown_hooks(),
                final(self).shutdown_hooks(),
                outcome,
            ),
            final(self).init_hooks() == old(self).init_hooks(),
            final(self).bootstrap_hooks() == old(self).bootstrap_hooks(),
            final(self).destroy_hooks() == old(self).destroy_hooks(),
            outcome is Ok,
    {
        self.on_shutdown_hooks.run(Phase::Shutdown)
    }

    /// Runs every destroy hook in the reverse of the order of registration,
    /// each once. A hook that fails does not keep the others from running,
    /// and the phase succeeds.
    pub fn call_module_destroy(&mut self) -> (outcome: Result<(), LifecycleError>)
        ensures
            final(self).same_names(old(self)),
            phase_ran(
                Phase::Destroy,
                old(self).names(Phase::Destroy),
                old(self).destroy_hooks(),
                final(self).destroy_hooks(),
                outcome,
            ),
            final(self).init_hooks() == old(self).init_hooks(),
            final(self).bootstrap_hooks() == old(self).bootstrap_hooks(),
            final(self).shutdown_hooks() == old(self).shutdown_hooks(),
            outcome is Ok,
    {
        self.on_destroy_hooks.run(Phase::Destroy)
    }

    /// The number of initialisation hooks.
    pub fn init_hook_count(&self) -> (count: usize)
        ensures
            count == self.names(Phase::Init).len(),
    {
        self.on_init_hooks.len()
    }

    /// The number of bootstrap hooks.
    pub fn bootstrap_hook_count(&self) -> (count: usize)
        ensures
            count == self.names(Phase::Bootstrap).len(),
    {
        self.on_bootstrap_hooks.len()
    }

    /// The number of shutdown hooks.
    pub fn shutdown_hook_count(&self) -> (count: usize)
        ensures
            count == self.names(Phase::Shutdown).len(),
    {
        self.on_shutdown_hooks.len()
    }

    /// The number of destroy hooks.
    pub fn destroy_hook_count(&self) -> (count: usize)
        ensures
            count == self.names(Phase::Destroy).len(),
    {
        self.on_destroy_hooks.len()
    }
}

impl Default for LifecycleManager {
    fn default() -> (manager: LifecycleManager)
        ensures
            manager.names(Phase::Init).len() == 0,
            manager.names(Phase::Bootstrap).len() == 0,
            manager.names(Phase::Shutdown).len() == 0,
            manager.names(Phase::Destroy).len() == 0,
    {
        LifecycleManager::new()
    }
}

} // verus!
