use meshestra::aspect::{run_after, run_before, Aspect, AspectError, AspectInterceptor};
use meshestra::controller::{
    base_path, is_http_method_attr, is_param_attr, HttpMethod, ParamKind,
};
use meshestra::di::{Container, FieldInjection, Injectable};
use meshestra::lifecycle::{
    Application, ApplicationBuilder, LifecycleError, OnApplicationBootstrap,
    OnApplicationShutdown, OnModuleDestroy, OnModuleInit,
};
use meshestra::module::{create_container, provide, provide_as, Module, Provider};
use meshestra::text::{prefixed, same_text};
use meshestra::MeshestraError;
use std::sync::{Arc, Mutex};

#[test]
fn route_attributes_name_their_method() {
    assert_eq!(HttpMethod::from_attribute("get"), Some(HttpMethod::Get));
    assert_eq!(HttpMethod::from_attribute("post"), Some(HttpMethod::Post));
    assert_eq!(HttpMethod::from_attribute("put"), Some(HttpMethod::Put));
    assert_eq!(HttpMethod::from_attribute("delete"), Some(HttpMethod::Delete));
    assert_eq!(HttpMethod::from_attribute("patch"), Some(HttpMethod::Patch));
    assert_eq!(HttpMethod::from_attribute("GET"), None);
    assert_eq!(HttpMethod::from_attribute("aspect"), None);
    assert_eq!(HttpMethod::Get.name(), "GET");
    assert_eq!(HttpMethod::Post.name(), "POST");
    assert_eq!(HttpMethod::Put.name(), "PUT");
    assert_eq!(HttpMethod::Delete.name(), "DELETE");
    assert_eq!(HttpMethod::Patch.name(), "PATCH");
    for method in [
        HttpMethod::Get,
        HttpMethod::Post,
        HttpMethod::Put,
        HttpMethod::Delete,
        HttpMethod::Patch,
    ] {
        assert_eq!(HttpMethod::routed(method.name()), method);
    }
    assert_eq!(HttpMethod::routed("OPTIONS"), HttpMethod::Get);
    assert_eq!(HttpMethod::routed(""), HttpMethod::Get);
    assert!(is_http_method_attr("patch"));
    assert!(!is_http_method_attr("body"));
    assert!(same_text("a", "a"));
    assert!(!same_text("a", "A"));
    assert!(!same_text("a", "ab"));
    assert_eq!(prefixed("ab", "cd"), "abcd");
    assert_eq!(prefixed("", ""), "");
}

#[test]
fn parameter_attributes_name_their_source() {
    assert_eq!(ParamKind::from_attribute("body"), Some(ParamKind::Body));
    assert_eq!(ParamKind::from_attribute("param"), Some(ParamKind::Param));
    assert_eq!(ParamKind::from_attribute("query"), Some(ParamKind::Query));
    assert_eq!(ParamKind::from_attribute("headers"), None);
    assert!(is_param_attr("query"));
    assert!(!is_param_attr("get"));
    let names = |list: &[&str]| list.iter().map(|s| s.to_string()).collect::<Vec<_>>();
    assert_eq!(ParamKind::of(&names(&[])), ParamKind::Raw);
    assert_eq!(ParamKind::of(&names(&["doc", "allow"])), ParamKind::Raw);
    assert_eq!(ParamKind::of(&names(&["doc", "query", "body"])), ParamKind::Query);
    assert_eq!(ParamKind::of(&names(&["body"])), ParamKind::Body);
    assert_eq!(ParamKind::of(&names(&["allow", "param"])), ParamKind::Param);
    assert_eq!(base_path(None), "/");
    assert_eq!(base_path(Some("/users".to_string())), "/users");
}

struct Stamp {
    refuse_before: bool,
    refuse_after: bool,
    seen: Arc<Mutex<Vec<String>>>,
}

impl Aspect<Vec<String>, String, String> for Stamp {
    fn before(&self, request: &mut Vec<String>) -> Result<(), MeshestraError> {
        if self.refuse_before {
            return Err(MeshestraError::Internal("Missing token".to_string()));
        }
        request.push("stamped".to_string());
        Ok(())
    }

    fn after(&self, response: &mut String) -> Result<(), MeshestraError> {
        if self.refuse_after {
            return Err(MeshestraError::Internal("Bad response".to_string()));
        }
        response.push_str("!");
        Ok(())
    }

    fn on_error(&self, error: &String) {
        self.seen.lock().unwrap().push(error.clone());
    }
}

struct Silent;

impl Aspect<u8, u8, u8> for Silent {}

fn stamp(refuse_before: bool, refuse_after: bool, seen: &Arc<Mutex<Vec<String>>>) -> Stamp {
    Stamp { refuse_before, refuse_after, seen: Arc::clone(seen) }
}

#[test]
fn aspect_runs_round_the_handler() {
    let seen = Arc::new(Mutex::new(Vec::new()));
    let interceptor = AspectInterceptor::new(stamp(false, false, &seen));
    let answered = interceptor.intercept(vec!["req".to_string()], |request: Vec<String>| {
        Ok::<String, String>(request.join("+"))
    });
    assert!(matches!(answered, Ok(ref text) if text == "req+stamped!"));

    let failed = interceptor
        .intercept(vec![], |_request: Vec<String>| Err::<String, String>("boom".to_string()));
    assert!(matches!(failed, Err(AspectError::Handler(ref text)) if text == "boom"));
    assert_eq!(*seen.lock().unwrap(), vec!["boom".to_string()]);

    let ran = Arc::new(Mutex::new(false));
    let flag = Arc::clone(&ran);
    let refused = AspectInterceptor::new(stamp(true, false, &seen)).intercept(
        vec![],
        move |_request: Vec<String>| {
            *flag.lock().unwrap() = true;
            Ok::<String, String>(String::new())
        },
    );
    assert!(matches!(
        refused,
        Err(AspectError::Aspect(MeshestraError::Internal(ref text))) if text == "Missing token"
    ));
    assert!(!*ran.lock().unwrap());

    let spoiled = AspectInterceptor::new(stamp(false, true, &seen))
        .intercept(vec![], |_request: Vec<String>| Ok::<String, String>("fine".to_string()));
    assert!(matches!(
        spoiled,
        Err(AspectError::Aspect(MeshestraError::Internal(ref text))) if text == "Bad response"
    ));

    let silent = AspectInterceptor::new(Silent);
    assert!(matches!(silent.intercept(1, |n: u8| Ok::<u8, u8>(n + 1)), Ok(2)));
    assert!(matches!(silent.intercept(1, |n: u8| Err::<u8, u8>(n)), Err(AspectError::Handler(1))));
}

#[test]
fn a_hook_is_called_once_on_what_it_is_given() {
    let seen = Arc::new(Mutex::new(Vec::new()));
    let fine = stamp(false, false, &seen);
    let (passed, verdict) = run_before(&fine, vec!["req".to_string()]);
    assert_eq!(passed, vec!["req".to_string(), "stamped".to_string()]);
    assert!(verdict.is_ok());
    let (sent, checked) =
        run_after::<Stamp, Vec<String>, String, String>(&fine, "done".to_string());
    assert_eq!(sent, "done!");
    assert!(checked.is_ok());

    let strict = stamp(true, true, &seen);
    let (kept, refused) = run_before(&strict, vec!["req".to_string()]);
    assert_eq!(kept, vec!["req".to_string()]);
    assert_eq!(refused, Err(MeshestraError::Internal("Missing token".to_string())));
    let (unsent, spoiled) =
        run_after::<Stamp, Vec<String>, String, String>(&strict, "done".to_string());
    assert_eq!(unsent, "done");
    assert_eq!(spoiled, Err(MeshestraError::Internal("Bad response".to_string())));
}

struct Database {
    url: &'static str,
}

impl Injectable for Database {
    fn inject(_container: &Container) -> Result<Self, MeshestraError> {
        Ok(Database { url: "memory" })
    }
}

trait Users: Send + Sync {
    fn source(&self) -> &'static str;
}

struct UserRepository {
    database: Arc<Database>,
}

impl Injectable for UserRepository {
    fn inject(container: &Container) -> Result<Self, MeshestraError> {
        Ok(UserRepository { database: container.resolve::<Database>()? })
    }
}

impl Users for UserRepository {
    fn source(&self) -> &'static str {
        self.database.url
    }
}

struct UserService {
    users: Arc<dyn Users>,
}

impl Injectable for UserService {
    fn inject(container: &Container) -> Result<Self, MeshestraError> {
        Ok(UserService { users: container.resolve_trait::<dyn Users>()? })
    }
}

struct AppModule;

impl Module for AppModule {
    fn register(container: &mut Container) -> Result<(), MeshestraError> {
        provide::<Database>(container)?;
        provide_as::<dyn Users, UserRepository, _>(container, |c| c as Arc<dyn Users>)?;
        provide::<UserService>(container)?;
        Ok(())
    }
}

struct Misordered;

impl Module for Misordered {
    fn register(container: &mut Container) -> Result<(), MeshestraError> {
        provide::<UserService>(container)?;
        provide::<Database>(container)?;
        Ok(())
    }
}

#[test]
fn module_registers_providers_in_dependency_order() {
    let container = create_container::<AppModule>().ok().unwrap();
    assert_eq!(container.len(), 3);
    assert_eq!(container.resolve::<UserService>().unwrap().users.source(), "memory");
    let _marker: Provider<dyn Users> = Provider::<UserRepository>::new(0u8).for_trait::<dyn Users>();
}

#[test]
fn provider_before_its_dependency_fails_and_registers_nothing() {
    let mut container = Container::new();
    assert!(matches!(
        provide::<UserRepository>(&mut container),
        Err(MeshestraError::DependencyNotFound { .. })
    ));
    assert!(container.is_empty());
    assert!(matches!(
        provide_as::<dyn Users, UserRepository, _>(&mut container, |c| c as Arc<dyn Users>),
        Err(MeshestraError::DependencyNotFound { .. })
    ));
    assert!(container.is_empty());
    assert!(!container.contains::<dyn Users>());
    match create_container::<Misordered>() {
        Err(MeshestraError::DependencyNotFound { name }) => assert_eq!(name, "Unknown Trait"),
        _ => panic!("a provider registered before its dependency must fail"),
    }
}

#[derive(Clone)]
struct Noted {
    id: &'static str,
    log: Arc<Mutex<Vec<String>>>,
    fail_init: bool,
}

impl Noted {
    fn note(&self, phase: &str) {
        self.log.lock().unwrap().push(format!("{} {}", phase, self.id));
    }
}

impl OnModuleInit for Noted {
    fn on_module_init(&mut self) -> Result<(), LifecycleError> {
        self.note("init");
        if self.fail_init {
            Err(LifecycleError::init_failed("refused"))
        } else {
            Ok(())
        }
    }
}

impl OnApplicationBootstrap for Noted {
    fn on_application_bootstrap(&mut self) -> Result<(), LifecycleError> {
        self.note("bootstrap");
        Ok(())
    }
}

impl OnApplicationShutdown for Noted {
    fn on_application_shutdown(&mut self) -> Result<(), LifecycleError> {
        self.note("shutdown");
        Ok(())
    }
}

impl OnModuleDestroy for Noted {
    fn on_module_destroy(&mut self) -> Result<(), LifecycleError> {
        self.note("destroy");
        Ok(())
    }
}

fn noted(id: &'static str, log: &Arc<Mutex<Vec<String>>>, fail_init: bool) -> Noted {
    Noted { id, log: Arc::clone(log), fail_init }
}

#[test]
fn application_runs_its_hooks_in_phase_order() {
    let log = Arc::new(Mutex::new(Vec::new()));
    let mut container = Container::new();
    container.register(Database { url: "memory" });
    let mut application = Application::builder()
        .container(container)
        .register_lifecycle(noted("db", &log, false), "Database")
        .register_full_lifecycle(noted("cache", &log, false), "Cache")
        .on_bootstrap(noted("jobs", &log, false), "Jobs")
        .build()
        .ok()
        .unwrap();
    assert_eq!(application.container().len(), 1);
    assert_eq!(application.lifecycle_manager().init_hook_count(), 2);
    assert_eq!(application.lifecycle_manager().bootstrap_hook_count(), 2);
    assert_eq!(application.lifecycle_manager().shutdown_hook_count(), 1);
    assert_eq!(application.lifecycle_manager().destroy_hook_count(), 2);
    assert_eq!(application.shutdown(), Ok(()));
    assert_eq!(
        *log.lock().unwrap(),
        vec![
            "init db",
            "init cache",
            "bootstrap cache",
            "bootstrap jobs",
            "shutdown cache",
            "destroy cache",
            "destroy db"
        ]
        .into_iter()
        .map(String::from)
        .collect::<Vec<_>>()
    );
}

#[test]
fn application_needs_a_container_and_fails_with_its_first_hook() {
    let log = Arc::new(Mutex::new(Vec::new()));
    let without = ApplicationBuilder::new().on_init(noted("db", &log, false), "Database").build();
    assert_eq!(
        without.err(),
        Some(LifecycleError::InitializationFailed("Container not provided".to_string()))
    );
    assert!(log.lock().unwrap().is_empty());

    let failing = ApplicationBuilder::default()
        .container(Container::new())
        .on_init(noted("db", &log, true), "Database")
        .on_init(noted("cache", &log, false), "Cache")
        .on_bootstrap(noted("jobs", &log, false), "Jobs")
        .on_shutdown(noted("jobs", &log, false), "Jobs")
        .on_destroy(noted("jobs", &log, false), "Jobs")
        .build();
    assert_eq!(
        failing.err(),
        Some(LifecycleError::HookFailed {
            service: "Database".to_string(),
            message: "Initialization failed: refused".to_string(),
        })
    );
    assert_eq!(*log.lock().unwrap(), vec!["init db".to_string()]);
}

#[test]
fn fields_are_injected_by_the_shape_of_their_type() {
    assert_eq!(FieldInjection::of("Lazy", true, false), FieldInjection::Deferred);
    assert_eq!(FieldInjection::of("Lazy", true, true), FieldInjection::Deferred);
    assert_eq!(FieldInjection::of("Arc", true, true), FieldInjection::Capability);
    assert_eq!(FieldInjection::of("Arc", true, false), FieldInjection::Shared);
    assert_eq!(FieldInjection::of("Arc", false, false), FieldInjection::Direct);
    assert_eq!(FieldInjection::of("Lazy", false, false), FieldInjection::Direct);
    assert_eq!(FieldInjection::of("Vec", true, false), FieldInjection::Direct);
    assert_eq!(FieldInjection::of("UserService", false, false), FieldInjection::Direct);
}

#[test]
fn application_without_hooks_builds() {
    let application = ApplicationBuilder::new().container(Container::new()).build();
    assert!(application.is_ok());
}
