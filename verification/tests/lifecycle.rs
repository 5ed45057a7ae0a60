use meshestra::lifecycle::manager::{
    bootstrap_boxed, destroy_boxed, init_boxed, shutdown_boxed, PhaseHook,
};
use meshestra::lifecycle::{
    LifecycleError, LifecycleManager, OnApplicationBootstrap, OnApplicationShutdown,
    OnModuleDestroy, OnModuleInit, Phase,
};
use std::sync::{Arc, Mutex};

#[derive(Default)]
struct Flags {
    initialized: bool,
    bootstrapped: bool,
    shutdown: bool,
    destroyed: bool,
}

#[derive(Clone)]
struct TestService {
    flags: Arc<Mutex<Flags>>,
}

impl TestService {
    fn new() -> Self {
        TestService { flags: Arc::new(Mutex::new(Flags::default())) }
    }
}

impl OnModuleInit for TestService {
    fn on_module_init(&mut self) -> Result<(), LifecycleError> {
        self.flags.lock().unwrap().initialized = true;
        Ok(())
    }
}

impl OnApplicationBootstrap for TestService {
    fn on_application_bootstrap(&mut self) -> Result<(), LifecycleError> {
        self.flags.lock().unwrap().bootstrapped = true;
        Ok(())
    }
}

impl OnApplicationShutdown for TestService {
    fn on_application_shutdown(&mut self) -> Result<(), LifecycleError> {
        self.flags.lock().unwrap().shutdown = true;
        Ok(())
    }
}

impl OnModuleDestroy for TestService {
    fn on_module_destroy(&mut self) -> Result<(), LifecycleError> {
        self.flags.lock().unwrap().destroyed = true;
        Ok(())
    }
}

#[test]
fn test_lifecycle_hooks() {
    let service = TestService::new();

    let mut manager = LifecycleManager::new();
    manager.register_init(service.clone(), "TestService");
    manager.register_bootstrap(service.clone(), "TestService");
    manager.register_shutdown(service.clone(), "TestService");
    manager.register_destroy(service.clone(), "TestService");

    manager.call_module_init().unwrap();
    assert!(service.flags.lock().unwrap().initialized);

    manager.call_application_bootstrap().unwrap();
    assert!(service.flags.lock().unwrap().bootstrapped);

    manager.call_application_shutdown().unwrap();
    assert!(service.flags.lock().unwrap().shutdown);

    manager.call_module_destroy().unwrap();
    assert!(service.flags.lock().unwrap().destroyed);
}

struct OrderedService {
    id: usize,
    order: Arc<Mutex<Vec<usize>>>,
    fail: bool,
}

impl OrderedService {
    fn visit(&mut self) -> Result<(), LifecycleError> {
        self.order.lock().unwrap().push(self.id);
        if self.fail {
            Err(LifecycleError::init_failed("no connection"))
        } else {
            Ok(())
        }
    }
}

impl OnModuleInit for OrderedService {
    fn on_module_init(&mut self) -> Result<(), LifecycleError> {
        self.visit()
    }
}

impl OnApplicationBootstrap for OrderedService {
    fn on_application_bootstrap(&mut self) -> Result<(), LifecycleError> {
        self.visit()
    }
}

impl OnApplicationShutdown for OrderedService {
    fn on_application_shutdown(&mut self) -> Result<(), LifecycleError> {
        self.visit()
    }
}

impl OnModuleDestroy for OrderedService {
    fn on_module_destroy(&mut self) -> Result<(), LifecycleError> {
        self.visit()
    }
}

fn ordered(id: usize, order: &Arc<Mutex<Vec<usize>>>, fail: bool) -> OrderedService {
    OrderedService { id, order: Arc::clone(order), fail }
}

#[test]
fn test_destroy_reverse_order() {
    let order = Arc::new(Mutex::new(Vec::new()));

    let mut manager = LifecycleManager::new();

    for i in 0..3 {
        manager.register_destroy(ordered(i, &order, false), &format!("Service{}", i));
    }

    manager.call_module_destroy().unwrap();

    assert_eq!(*order.lock().unwrap(), vec![2, 1, 0]);
}

#[test]
fn init_stops_at_the_first_failure_and_names_it() {
    let order = Arc::new(Mutex::new(Vec::new()));
    let mut manager = LifecycleManager::new();
    manager.register_init(ordered(0, &order, false), "Cache");
    manager.register_init(ordered(1, &order, true), "Database");
    manager.register_init(ordered(2, &order, false), "Mailer");
    assert_eq!(manager.init_hook_count(), 3);
    assert_eq!(
        manager.call_module_init(),
        Err(LifecycleError::HookFailed {
            service: "Database".to_string(),
            message: "Initialization failed: no connection".to_string(),
        })
    );
    assert_eq!(*order.lock().unwrap(), vec![0, 1]);
}

#[test]
fn bootstrap_stops_at_the_first_failure() {
    let order = Arc::new(Mutex::new(Vec::new()));
    let mut manager = LifecycleManager::default();
    manager.register_bootstrap(ordered(0, &order, true), "Scheduler");
    manager.register_bootstrap(ordered(1, &order, false), "Warmer");
    assert_eq!(manager.bootstrap_hook_count(), 2);
    assert!(matches!(
        manager.call_application_bootstrap(),
        Err(LifecycleError::HookFailed { .. })
    ));
    assert_eq!(*order.lock().unwrap(), vec![0]);
}

#[test]
fn shutdown_and_destroy_run_every_hook_despite_failures() {
    let order = Arc::new(Mutex::new(Vec::new()));
    let mut manager = LifecycleManager::new();
    manager.register_shutdown(ordered(0, &order, true), "A");
    manager.register_shutdown(ordered(1, &order, false), "B");
    manager.register_destroy(ordered(10, &order, false), "A");
    manager.register_destroy(ordered(11, &order, true), "B");
    assert_eq!(manager.shutdown_hook_count(), 2);
    assert_eq!(manager.destroy_hook_count(), 2);
    assert_eq!(manager.init_hook_count(), 0);
    assert_eq!(manager.call_application_shutdown(), Ok(()));
    assert_eq!(manager.call_module_destroy(), Ok(()));
    assert_eq!(*order.lock().unwrap(), vec![0, 1, 11, 10]);
}

#[test]
fn phases_without_hooks_succeed() {
    let mut manager = LifecycleManager::new();
    assert_eq!(manager.call_module_init(), Ok(()));
    assert_eq!(manager.call_application_bootstrap(), Ok(()));
    assert_eq!(manager.call_application_shutdown(), Ok(()));
    assert_eq!(manager.call_module_destroy(), Ok(()));
}

#[test]
fn phase_order_and_failure_policy() {
    assert!(Phase::Init.fails_fast());
    assert!(Phase::Bootstrap.fails_fast());
    assert!(!Phase::Shutdown.fails_fast());
    assert!(!Phase::Destroy.fails_fast());
    assert_eq!(Phase::Init.hook_at(3, 0), Some(0));
    assert_eq!(Phase::Bootstrap.hook_at(3, 1), Some(1));
    assert_eq!(Phase::Shutdown.hook_at(3, 2), Some(2));
    assert_eq!(Phase::Shutdown.hook_at(3, 3), None);
    assert_eq!(Phase::Destroy.hook_at(3, 0), Some(2));
    assert_eq!(Phase::Destroy.hook_at(3, 2), Some(0));
    assert_eq!(Phase::Destroy.hook_at(1, 0), Some(0));
    assert_eq!(Phase::Destroy.hook_at(3, 3), None);
    assert_eq!(Phase::Init.hook_at(0, 0), None);
    let cause = LifecycleError::shutdown_failed("busy");
    assert_eq!(
        Phase::Init.after_hook("Db", Err(cause.clone())),
        Some(LifecycleError::HookFailed {
            service: "Db".to_string(),
            message: "Shutdown failed: busy".to_string(),
        })
    );
    assert_eq!(Phase::Destroy.after_hook("Db", Err(cause)), None);
    assert_eq!(Phase::Bootstrap.after_hook("Db", Ok(())), None);
}

#[test]
fn lifecycle_error_constructors_and_messages() {
    assert_eq!(
        LifecycleError::init_failed("x"),
        LifecycleError::InitializationFailed("x".to_string())
    );
    assert_eq!(LifecycleError::init_failed("x").message(), "Initialization failed: x");
    assert_eq!(
        LifecycleError::shutdown_failed("y"),
        LifecycleError::ShutdownFailed("y".to_string())
    );
    assert_eq!(LifecycleError::shutdown_failed("y").message(), "Shutdown failed: y");
    assert_eq!(
        LifecycleError::timeout("OnModuleInit", "Timeout after 30s"),
        LifecycleError::Timeout {
            phase: "OnModuleInit".to_string(),
            message: "Timeout after 30s".to_string(),
        }
    );
    assert_eq!(
        LifecycleError::timeout("OnModuleInit", "Timeout after 30s").message(),
        "Timeout during OnModuleInit: Timeout after 30s"
    );
    assert_eq!(
        LifecycleError::hook_failed("Db", "down"),
        LifecycleError::HookFailed { service: "Db".to_string(), message: "down".to_string() }
    );
    assert_eq!(
        LifecycleError::hook_failed("Db", "down").message(),
        "Hook execution failed for Db: down"
    );
}

struct Counting {
    runs: u32,
    limit: u32,
}

impl PhaseHook for Counting {
    fn run_hook(self) -> (Self, Result<(), LifecycleError>) {
        let runs = self.runs + 1;
        let result = if runs > self.limit {
            Err(LifecycleError::hook_failed("counting", "ran too often"))
        } else {
            Ok(())
        };
        (Counting { runs, limit: self.limit }, result)
    }
}

impl OnModuleInit for Counting {
    fn on_module_init(&mut self) -> Result<(), LifecycleError> {
        self.runs += 1;
        if self.runs > self.limit {
            Err(LifecycleError::init_failed("ran too often"))
        } else {
            Ok(())
        }
    }
}

impl OnApplicationBootstrap for Counting {
    fn on_application_bootstrap(&mut self) -> Result<(), LifecycleError> {
        self.runs += 10;
        Ok(())
    }
}

impl OnApplicationShutdown for Counting {
    fn on_application_shutdown(&mut self) -> Result<(), LifecycleError> {
        self.runs += 100;
        Err(LifecycleError::shutdown_failed("busy"))
    }
}

impl OnModuleDestroy for Counting {
    fn on_module_destroy(&mut self) -> Result<(), LifecycleError> {
        self.runs += 1000;
        Ok(())
    }
}

#[test]
fn a_hook_runs_once_and_keeps_what_the_run_left() {
    let (left, result) = Counting { runs: 0, limit: 1 }.run_hook();
    assert_eq!(left.runs, 1);
    assert_eq!(result, Ok(()));
    let (again, failed) = left.run_hook();
    assert_eq!(again.runs, 2);
    assert_eq!(failed, Err(LifecycleError::hook_failed("counting", "ran too often")));
}

#[test]
fn a_boxed_service_is_called_once_and_handed_back() {
    let (first, initialised) = init_boxed(Box::new(Counting { runs: 0, limit: 1 }));
    assert_eq!(first.runs, 1);
    assert_eq!(initialised, Ok(()));
    let (second, refused) = init_boxed(first);
    assert_eq!(second.runs, 2);
    assert_eq!(refused, Err(LifecycleError::init_failed("ran too often")));
    let (third, started) = bootstrap_boxed(second);
    assert_eq!(third.runs, 12);
    assert_eq!(started, Ok(()));
    let (fourth, stopped) = shutdown_boxed(third);
    assert_eq!(fourth.runs, 112);
    assert_eq!(stopped, Err(LifecycleError::shutdown_failed("busy")));
    let (fifth, destroyed) = destroy_boxed(fourth);
    assert_eq!(fifth.runs, 1112);
    assert_eq!(destroyed, Ok(()));
}

struct Tally {
    count: Arc<Mutex<u32>>,
    own: u32,
}

impl OnModuleInit for Tally {
    fn on_module_init(&mut self) -> Result<(), LifecycleError> {
        self.own += 1;
        *self.count.lock().unwrap() += self.own;
        Ok(())
    }
}

#[test]
fn a_phase_run_twice_finds_each_hook_as_the_first_run_left_it() {
    let count = Arc::new(Mutex::new(0));
    let mut manager = LifecycleManager::new();
    manager.register_init(Tally { count: Arc::clone(&count), own: 0 }, "a");
    manager.register_init(Tally { count: Arc::clone(&count), own: 10 }, "b");
    assert_eq!(manager.call_module_init(), Ok(()));
    assert_eq!(*count.lock().unwrap(), 12);
    assert_eq!(manager.call_module_init(), Ok(()));
    assert_eq!(*count.lock().unwrap(), 12 + 2 + 12);
    assert_eq!(manager.init_hook_count(), 2);
}
