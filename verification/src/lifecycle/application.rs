//! The application: a container with the hooks of its services.

use crate::di::container::{Container, ContainerView};
use crate::lifecycle::error::{LifecycleError, LifecycleErrorView};
use crate::lifecycle::manager::{
    bootstrap_added, destroy_added, init_added, phase_ran, shutdown_added, BootstrapHook,
    InitHook, LifecycleManager, Phase,
};
use crate::lifecycle::traits::{
    OnApplicationBootstrap, OnApplicationShutdown, OnModuleDestroy, OnModuleInit,
};
use vstd::prelude::*;

verus! {

/// An application whose services are initialised and started.
pub struct Application {
    container: Container,
    lifecycle_manager: LifecycleManager,
}

/// Collects the container and the hooks of an application.
pub struct ApplicationBuilder {
    container: Option<Container>,
    lifecycle_manager: LifecycleManager,
}

/// What building an application without container reports.
pub open spec fn missing_container() -> LifecycleErrorView {
    LifecycleErrorView::InitializationFailed("Container not provided"@)
}

impl Application {
    /// The hooks of the application.
    pub closed spec fn hooks(&self) -> LifecycleManager {
        self.lifecycle_manager
    }

    /// The container of the application.
    pub closed spec fn services(&self) -> ContainerView {
        self.container@
    }

    /// A builder without container and without hooks.
    pub fn builder() -> (builder: ApplicationBuilder)
        ensures
            builder.provided() is None,
            builder.hooks().names(Phase::Init).len() == 0,
            builder.hooks().names(Phase::Bootstrap).len() == 0,
            builder.hooks().names(Phase::Shutdown).len() == 0,
            builder.hooks().names(Phase::Destroy).len() == 0,
    {
        ApplicationBuilder::new()
    }

    /// The container.
    pub fn container(&self) -> (container: &Container)
        ensures
            container@ == self.services(),
    {
        &self.container
    }

    /// The hooks.
    pub fn lifecycle_manager(&self) -> (manager: &LifecycleManager)
        ensures
            *manager == self.hooks(),
    {
        &self.lifecycle_manager
    }

    /// Shuts the application down: every shutdown hook runs, then every
    /// destroy hook in the reverse of the order of registration. No hook
    /// keeps another from running, and the shutdown succeeds.
    pub fn shutdown(&mut self) -> (outcome: Result<(), LifecycleError>)
        ensures
            final(self).hooks().same_names(&old(self).hooks()),
            final(self).services() == old(self).services(),
            phase_ran(
                Phase::Shutdown,
                old(self).hooks().names(Phase::Shutdown),
                old(self).hooks().shutdown_hooks(),
                final(self).hooks().shutdown_hooks(),
                outcome,
            ),
            phase_ran(
                Phase::Destroy,
                old(self).hooks().names(Phase::Destroy),
                old(self).hooks().destroy_hooks(),
                final(self).hooks().destroy_hooks(),
                outcome,
            ),
            final(self).hooks().init_hooks() == old(self).hooks().init_hooks(),
            final(self).hooks().bootstrap_hooks() == old(self).hooks().bootstrap_hooks(),
            outcome is Ok,
    {
        let stopped = self.lifecycle_manager.call_application_shutdown();
        match stopped {
            Err(error) => Err(error),
            Ok(done) => {
                let destroyed = self.lifecycle_manager.call_module_destroy();
                proof {
                    assert(done == ());
                    assert(stopped == Ok::<(), LifecycleError>(done));
                    assert(destroyed->Ok_0 == ());
                    assert(destroyed == stopped);
                }
                destroyed
            },
        }
    }
}

impl ApplicationBuilder {
    /// The hooks collected so far.
    pub closed spec fn hooks(&self) -> LifecycleManager {
        self.lifecycle_manager
    }

    /// The container, once one was given.
    pub closed spec fn provided(&self) -> Option<ContainerView> {
        match self.container {
            Some(container) => Some(container@),
            None => None,
        }
    }

    /// A builder without container and without hooks.
    pub fn new() -> (builder: ApplicationBuilder)
        ensures
            builder.provided() is None,
            builder.hooks().names(Phase::Init).len() == 0,
            builder.hooks().names(Phase::Bootstrap).len() == 0,
            builder.hooks().names(Phase::Shutdown).len() == 0,
            builder.hooks().names(Phase::Destroy).len() == 0,
    {
        ApplicationBuilder { container: None, lifecycle_manager: LifecycleManager::new() }
    }

    /// The builder with `container` as its container, in place of any given
    /// before.
    pub fn container(self, container: Container) -> (builder: ApplicationBuilder)
        ensures
            builder.provided() == Some(container@),
            builder.hooks() == self.hooks(),
    {
        ApplicationBuilder { container: Some(container), lifecycle_manager: self.lifecycle_manager }
    }

    /// The builder with an initialisation hook added.
    pub fn on_init<T: OnModuleInit + 'static>(self, service: T, name: &str) -> (builder:
        ApplicationBuilder)
        ensures
            builder.provided() == self.provided(),
            builder.hooks().registered(&self.hooks(), Phase::Init, name@),
            init_added(self.hooks().init_hooks(), service, builder.hooks().init_hooks()),
            builder.hooks().bootstrap_hooks() == self.hooks().bootstrap_hooks(),
            builder.hooks().shutdown_hooks() == self.hooks().shutdown_hooks(),
            builder.hooks().destroy_hooks() == self.hooks().destroy_hooks(),
    {
        let mut manager = self.lifecycle_manager;
        manager.register_init(service, name);
        ApplicationBuilder { container: self.container, lifecycle_manager: manager }
    }

    /// The builder with a bootstrap hook added.
    pub fn on_bootstrap<T: OnApplicationBootstrap + 'static>(self, service: T, name: &str) -> (builder:
        ApplicationBuilder)
        ensures
            builder.provided() == self.provided(),
            builder.hooks().registered(&self.hooks(), Phase::Bootstrap, name@),
            bootstrap_added(self.hooks().bootstrap_hooks(), service, builder.hooks().bootstrap_hooks()),
            builder.hooks().init_hooks() == self.hooks().init_hooks(),
            builder.hooks().shutdown_hooks() == self.hooks().shutdown_hooks(),
            builder.hooks().destroy_hooks() == self.hooks().destroy_hooks(),
    {
        let mut manager = self.lifecycle_manager;
        manager.register_bootstrap(service, name);
        ApplicationBuilder { container: self.container, lifecycle_manager: manager }
    }

    /// The builder with a shutdown hook added.
    pub fn on_shutdown<T: OnApplicationShutdown + 'static>(self, service: T, name: &str) -> (builder:
        ApplicationBuilder)
        ensures
            builder.provided() == self.provided(),
            builder.hooks().registered(&self.hooks(), Phase::Shutdown, name@),
            shutdown_added(self.hooks().shutdown_hooks(), service, builder.hooks().shutdown_hooks()),
            builder.hooks().init_hooks() == self.hooks().init_hooks(),
            builder.hooks().bootstrap_hooks() == self.hooks().bootstrap_hooks(),
            builder.hooks().destroy_hooks() == self.hooks().destroy_hooks(),
    {
        let mut manager = self.lifecycle_manager;
        manager.register_shutdown(service, name);
        ApplicationBuilder { container: self.container, lifecycle_manager: manager }
    }

    /// The builder with a destroy hook added.
    pub fn on_destroy<T: OnModuleDestroy + 'static>(self, service: T, name: &str) -> (builder:
        ApplicationBuilder)
        ensures
            builder.provided() == self.provided(),
            builder.hooks().registered(&self.hooks(), Phase::Destroy, name@),
            destroy_added(self.hooks().destroy_hooks(), service, builder.hooks().destroy_hooks()),
            builder.hooks().init_hooks() == self.hooks().init_hooks(),
            builder.hooks().bootstrap_hooks() == self.hooks().bootstrap_hooks(),
            builder.hooks().shutdown_hooks() == self.hooks().shutdown_hooks(),
    {
        let mut manager = self.lifecycle_manager;
        manager.register_destroy(service, name);
        ApplicationBuilder { container: self.container, lifecycle_manager: manager }
    }

    /// The builder with `service` added to the initialisation and to the
    /// destroy hooks, under one name. The two hooks get a handle each.
    pub fn register_lifecycle<T>(self, service: T, name: &str) -> (builder: ApplicationBuilder) where
        T: OnModuleInit + OnModuleDestroy + Clone + 'static,

        ensures
            builder.provided() == self.provided(),
            builder.hooks().names(Phase::Init) == self.hooks().names(Phase::Init).push(name@),
            builder.hooks().names(Phase::Destroy) == self.hooks().names(Phase::Destroy).push(name@),
            builder.hooks().names(Phase::Bootstrap) == self.hooks().names(Phase::Bootstrap),
            builder.hooks().names(Phase::Shutdown) == self.hooks().names(Phase::Shutdown),
            exists|other: T| #[trigger]
                call_ensures(T::clone, (&service,), other) && init_added(
                    self.hooks().init_hooks(),
                    other,
                    builder.hooks().init_hooks(),
                ),
            destroy_added(self.hooks().destroy_hooks(), service, builder.hooks().destroy_hooks()),
            builder.hooks().bootstrap_hooks() == self.hooks().bootstrap_hooks(),
            builder.hooks().shutdown_hooks() == self.hooks().shutdown_hooks(),
    {
        let other = service.clone();
        self.on_init(other, name).on_destroy(service, name)
    }

    /// The builder with `service` added to the hooks of every phase, under
    /// one name. The four hooks get a handle each.
    pub fn register_full_lifecycle<T>(self, service: T, name: &str) -> (builder:
        ApplicationBuilder) where
        T: OnModuleInit + OnApplicationBootstrap + OnApplicationShutdown + OnModuleDestroy + Clone
            + 'static,

        ensures
            builder.provided() == self.provided(),
            builder.hooks().names(Phase::Init) == self.hooks().names(Phase::Init).push(name@),
            builder.hooks().names(Phase::Bootstrap) == self.hooks().names(Phase::Bootstrap).push(
                name@,
            ),
            builder.hooks().names(Phase::Shutdown) == self.hooks().names(Phase::Shutdown).push(
                name@,
            ),
            builder.hooks().names(Phase::Destroy) == self.hooks().names(Phase::Destroy).push(name@),
            exists|first: T| #[trigger]
                call_ensures(T::clone, (&service,), first) && init_added(
                    self.hooks().init_hooks(),
                    first,
                    builder.hooks().init_hooks(),
                ),
            exists|second: T| #[trigger]
                call_ensures(T::clone, (&service,), second) && bootstrap_added(
                    self.hooks().bootstrap_hooks(),
                    second,
                    builder.hooks().bootstrap_hooks(),
                ),
            exists|third: T| #[trigger]
                call_ensures(T::clone, (&service,), third) && shutdown_added(
                    self.hooks().shutdown_hooks(),
                    third,
                    builder.hooks().shutdown_hooks(),
                ),
            destroy_added(self.hooks().destroy_hooks(), service, builder.hooks().destroy_hooks()),
    {
        let first = service.clone();
        let second = service.clone();
        let third = service.clone();
        self.on_init(first, name).on_bootstrap(second, name).on_shutdown(third, name).on_destroy(
            service,
            name,
        )
    }

    /// Whether `application` is what a build hands over where both phases
    /// succeeded: it holds `container`, the hooks of the two phases as
    /// their runs left them, and the shutdown and destroy hooks as they
    /// were collected.
    pub open spec fn handed_over(
        &self,
        container: ContainerView,
        ready: Seq<InitHook>,
        running: Seq<BootstrapHook>,
        application: Application,
    ) -> bool {
        &&& application.services() == container
        &&& application.hooks().same_names(&self.hooks())
        &&& application.hooks().init_hooks() == ready
        &&& application.hooks().bootstrap_hooks() == running
        &&& application.hooks().shutdown_hooks() == self.hooks().shutdown_hooks()
        &&& application.hooks().destroy_hooks() == self.hooks().destroy_hooks()
    }

    /// Whether `outcome` is what building gives: without a container the
    /// failure that says so, and nothing runs; otherwise the initialisation
    /// hooks run as their phase says, then the bootstrap hooks as theirs,
    /// and the first phase that fails ends the build with its failure; where
    /// both succeed, the application holds the container and the hooks as
    /// the two phases left them.
    pub open spec fn build_gives(&self, outcome: Result<Application, LifecycleError>) -> bool {
        match self.provided() {
            None => outcome matches Err(e) && e@ == missing_container(),
            Some(container) => exists|
                initialised: Result<(), LifecycleError>,
                ready: Seq<InitHook>,
            | #[trigger]
                phase_ran(
                    Phase::Init,
                    self.hooks().names(Phase::Init),
                    self.hooks().init_hooks(),
                    ready,
                    initialised,
                ) && match initialised {
                    Err(failure) => outcome matches Err(e) && e == failure,
                    Ok(_) => exists|
                        started: Result<(), LifecycleError>,
                        running: Seq<BootstrapHook>,
                    | #[trigger]
                        phase_ran(
                            Phase::Bootstrap,
                            self.hooks().names(Phase::Bootstrap),
                            self.hooks().bootstrap_hooks(),
                            running,
                            started,
                        ) && match started {
                            Err(failure) => outcome matches Err(e) && e == failure,
                            Ok(_) => outcome matches Ok(application) && self.handed_over(
                                container,
                                ready,
                                running,
                                application,
                            ),
                        },
                },
        }
    }

    /// Builds the application: the initialisation hooks run, then the
    /// bootstrap hooks, and the first hook that fails ends the build with
    /// its failure. Without a container nothing runs and the build fails.
    /// With a container and without hooks the build succeeds.
    pub fn build(self) -> (outcome: Result<Application, LifecycleError>)
        ensures
            self.build_gives(outcome),
            self.provided() is None ==> (outcome matches Err(e) && e@ == missing_container()),
            (self.provided() is Some && self.hooks().names(Phase::Init).len() == 0
                && self.hooks().names(Phase::Bootstrap).len() == 0) ==> outcome is Ok,
            outcome matches Ok(application) ==> (Some(application.services())
                == self.provided() && application.hooks().same_names(&self.hooks())),
            outcome matches Err(e) ==> (e@ == missing_container() || e@ is HookFailed),
    {
        let container = match self.container {
            None => {
                return Err(LifecycleError::init_failed("Container not provided"));
            },
            Some(container) => container,
        };
        let mut manager = self.lifecycle_manager;
        let initialised = manager.call_module_init();
        let ghost ready = manager.init_hooks();
        assert(phase_ran(
            Phase::Init,
            self.hooks().names(Phase::Init),
            self.hooks().init_hooks(),
            ready,
            initialised,
        ));
        match initialised {
            Err(error) => {
                let outcome = Err(error);
                assert(self.build_gives(outcome));
                return outcome;
            },
            Ok(_) => {},
        }
        let started = manager.call_application_bootstrap();
        let ghost running = manager.bootstrap_hooks();
        assert(phase_ran(
            Phase::Bootstrap,
            self.hooks().names(Phase::Bootstrap),
            self.hooks().bootstrap_hooks(),
            running,
            started,
        ));
        match started {
            Err(error) => {
                let outcome = Err(error);
                assert(self.build_gives(outcome));
                return outcome;
            },
            Ok(_) => {},
        }
        let outcome = Ok(Application { container, lifecycle_manager: manager });
        assert(self.handed_over(container@, ready, running, outcome->Ok_0));
        assert(self.build_gives(outcome));
        outcome
    }
}

impl Default for ApplicationBuilder {
    fn default() -> (builder: ApplicationBuilder)
        ensures
            builder.provided() is None,
    {
        ApplicationBuilder::new()
    }
}

} // verus!
