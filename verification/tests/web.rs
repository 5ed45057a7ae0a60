use meshestra::common::{ApiError, ApiResponse};
use meshestra::di::{kept_or_resolved, Container, HasContainer, Inject, Lazy, TypeKey};
use meshestra::exception::http::HttpExceptionFilter;
use meshestra::exception::{ArgumentsHost, ExceptionFilter};
use meshestra::guard::{check_all, Guard, GuardError, SharedGuardLayer};
use meshestra::interceptor::LoggingInterceptor;
use meshestra::pipe::builtins::{validated, ParseIntPipe};
use meshestra::pipe::{Pipe, PipeError};
use meshestra::MeshestraError;

#[test]
fn error_messages_follow_their_variant() {
    let cases = vec![
        (
            MeshestraError::DependencyNotFound { name: "Repo".to_string() },
            "Dependency not found: Repo",
        ),
        (
            MeshestraError::DowncastFailed { name: "Repo".to_string() },
            "Failed to downcast type: Repo",
        ),
        (
            MeshestraError::CircularDependency { cycle: "A -> B -> A".to_string() },
            "Circular dependency detected: A -> B -> A",
        ),
        (MeshestraError::ScopeMismatch { message: "request".to_string() }, "Scope mismatch: request"),
        (
            MeshestraError::ModuleRegistrationFailed { message: "UserModule".to_string() },
            "Module registration failed: UserModule",
        ),
        (MeshestraError::Internal("boom".to_string()), "Internal error: boom"),
    ];
    for (error, text) in cases {
        assert_eq!(error.message(), text);
        let (status, body) = error.response_parts();
        assert_eq!(status, 500);
        match error {
            MeshestraError::Internal(_) => assert_eq!(body, "boom"),
            _ => assert_eq!(body, text),
        }
    }
    assert_eq!(
        MeshestraError::dependency_not_found("X"),
        MeshestraError::DependencyNotFound { name: "X".to_string() }
    );
    assert_eq!(
        MeshestraError::downcast_failed("X"),
        MeshestraError::DowncastFailed { name: "X".to_string() }
    );
    assert_eq!(MeshestraError::internal("X"), MeshestraError::Internal("X".to_string()));
    assert_eq!(
        MeshestraError::scope_mismatch("X"),
        MeshestraError::ScopeMismatch { message: "X".to_string() }
    );
}

#[test]
fn parse_int_pipe_accepts_integers_only() {
    let pipe = ParseIntPipe::default();
    assert_eq!(pipe.transform("42".to_string()), Ok(42));
    assert_eq!(pipe.transform("-7".to_string()), Ok(-7));
    assert_eq!(pipe.transform("+5".to_string()), Ok(5));
    assert_eq!(pipe.transform("2147483647".to_string()), Ok(i32::MAX));
    let invalid = Err(PipeError::Validation("Invalid integer".to_string()));
    assert_eq!(pipe.transform("2147483648".to_string()), invalid);
    assert_eq!(pipe.transform("".to_string()), invalid);
    assert_eq!(pipe.transform("4 2".to_string()), invalid);
    assert_eq!(pipe.transform("abc".to_string()), invalid);
    assert_eq!(validated(Some(3)), Ok(3));
    assert_eq!(validated(None), invalid);
    assert_eq!(
        PipeError::Validation("Invalid integer".to_string()).message(),
        "Validation failed: Invalid integer"
    );
    assert_eq!(PipeError::Transformation("t".to_string()).message(), "Transformation failed: t");
    assert_eq!(PipeError::Internal("i".to_string()).message(), "Internal pipe error: i");
}

struct HeaderGuard {
    header: &'static str,
    denial: fn(String) -> GuardError,
}

impl Guard<Vec<&'static str>> for HeaderGuard {
    fn can_activate(&self, request: &Vec<&'static str>) -> Result<(), GuardError> {
        if request.contains(&self.header) {
            Ok(())
        } else {
            Err((self.denial)(format!("missing {}", self.header)))
        }
    }
}

#[test]
fn guards_are_asked_in_order_and_the_first_denial_wins() {
    let guards: Vec<Box<dyn Guard<Vec<&'static str>>>> = vec![
        Box::new(HeaderGuard { header: "authorization", denial: GuardError::Unauthorized }),
        Box::new(HeaderGuard { header: "x-role", denial: GuardError::Forbidden }),
    ];
    let layer = SharedGuardLayer::new(guards);
    assert_eq!(layer.len(), 2);
    assert_eq!(layer.check(&vec!["authorization", "x-role"]), Ok(()));
    assert_eq!(
        layer.check(&vec!["x-role"]),
        Err(GuardError::Unauthorized("missing authorization".to_string()))
    );
    assert_eq!(
        layer.check(&vec![]),
        Err(GuardError::Unauthorized("missing authorization".to_string()))
    );
    let denied = layer.check(&vec!["authorization"]).unwrap_err();
    assert_eq!(denied, GuardError::Forbidden("missing x-role".to_string()));
    assert_eq!(denied.message(), "Forbidden: missing x-role");
    assert_eq!(denied.status(), 403);
    assert_eq!(GuardError::Unauthorized("who".to_string()).message(), "Unauthorized: who");
    assert_eq!(GuardError::Unauthorized("who".to_string()).status(), 401);
    let open: SharedGuardLayer<Vec<&'static str>> = SharedGuardLayer::new(Vec::new());
    assert_eq!(open.check(&vec![]), Ok(()));
}

#[test]
fn api_response_is_data_or_error() {
    let ok = ApiResponse::success(5);
    assert_eq!(ok.data, Some(5));
    assert_eq!(ok.error, None);
    assert!(ok.success);
    assert_eq!(ok.http_status, 200);
    let missing: ApiResponse<u8> = ApiResponse::error(404, "NotFound", "User not found");
    assert_eq!(missing.data, None);
    assert_eq!(
        missing.error,
        Some(ApiError { code: "NotFound".to_string(), message: "User not found".to_string() })
    );
    assert!(!missing.success);
    assert_eq!(missing.http_status, 404);
}

#[test]
fn exception_filter_answers_with_a_server_error() {
    let filter = HttpExceptionFilter::default();
    let _host = ArgumentsHost::default();
    let known = MeshestraError::DowncastFailed { name: "Repo".to_string() };
    assert_eq!(
        filter.describe(Some(&known)),
        (500, "Failed to downcast type: Repo".to_string())
    );
    assert_eq!(filter.describe(None), (500, "Internal Server Error".to_string()));
    assert_eq!(
        filter.catch(MeshestraError::Internal("boom".to_string())),
        (500, "Internal error: boom".to_string())
    );
}

#[test]
fn logging_lines() {
    let log = LoggingInterceptor::default();
    assert_eq!(log.arrival("GET", "/users/1"), "--> GET /users/1");
    assert_eq!(log.answer("GET", "/users/1", "200 OK", "1.5ms"), "<-- GET /users/1 200 OK 1.5ms");
    assert_eq!(
        log.failure("POST", "/users", "boom", "2ms"),
        "<-- POST /users ERROR: boom 2ms"
    );
}

struct Clock {
    ticks: u32,
}

struct State {
    container: Container,
}

impl HasContainer for State {
    fn get_container(&self) -> &Container {
        &self.container
    }
}

#[test]
fn inject_resolves_from_the_state_or_rejects() {
    let mut container = Container::new();
    container.register(Clock { ticks: 3 });
    let state = State { container };
    let clock = Inject::<Clock>::from_state(&state).ok().unwrap();
    assert_eq!(clock.get().ticks, 3);
    assert_eq!(clock.clone().0.ticks, 3);
    match Inject::<String>::from_state(&state) {
        Err((status, text)) => {
            assert_eq!(status, 500);
            assert!(text.starts_with("Dependency injection failed: Dependency not found: "));
        }
        Ok(_) => panic!("nothing of that type is registered"),
    }
    let key = TypeKey::labelled::<String>("String");
    match Inject::<String>::from_container(state.get_container(), &key) {
        Err(rejection) => assert_eq!(
            rejection,
            (500, "Dependency injection failed: Dependency not found: String".to_string())
        ),
        Ok(_) => panic!("nothing of that type is registered"),
    }
}

#[test]
fn lazy_resolves_on_first_use_and_keeps_the_value() {
    let mut container = Container::new();
    container.register(Clock { ticks: 9 });
    let mut clock: Lazy<Clock> = Lazy::new(&container);
    assert!(!clock.is_resolved());
    let first = clock.get().unwrap();
    assert!(clock.is_resolved());
    let second = clock.get().unwrap();
    assert!(std::sync::Arc::ptr_eq(&first, &second));
    assert_eq!(second.ticks, 9);
    let mut copy = clock.clone();
    assert!(copy.is_resolved());
    assert!(std::sync::Arc::ptr_eq(&first, &copy.get().unwrap()));

    let mut missing: Lazy<String> =
        Lazy::keyed(&container, TypeKey::labelled::<String>("String"));
    assert_eq!(
        missing.get().err(),
        Some(MeshestraError::DependencyNotFound { name: "String".to_string() })
    );
    assert!(!missing.is_resolved());
}

#[test]
fn a_kept_handle_is_handed_out_without_asking_the_container() {
    let empty = Container::new();
    let kept = std::sync::Arc::new(Clock { ticks: 4 });
    let key = TypeKey::labelled::<Clock>("Clock");
    let handed = kept_or_resolved(Some(&kept), &empty, &key).unwrap();
    assert!(std::sync::Arc::ptr_eq(&kept, &handed));
    assert_eq!(
        kept_or_resolved::<Clock>(None, &empty, &key).err(),
        Some(MeshestraError::DependencyNotFound { name: "Clock".to_string() })
    );
    let mut full = Container::new();
    full.register(Clock { ticks: 6 });
    assert_eq!(kept_or_resolved::<Clock>(None, &full, &key).unwrap().ticks, 6);
    assert!(std::sync::Arc::ptr_eq(&kept, &kept_or_resolved(Some(&kept), &full, &key).unwrap()));
}

use meshestra::interceptor::{
    intercept_with, run_chain, Handler, Interceptor, Next, SharedInterceptorLayer,
};

struct Tag(&'static str);

impl Interceptor<Vec<String>, Vec<String>, String> for Tag {
    fn intercept(
        &self,
        mut request: Vec<String>,
        next: &dyn Handler<Vec<String>, Vec<String>, String>,
    ) -> Result<Vec<String>, String> {
        request.push(format!("{} in", self.0));
        let mut response = next.handle(request)?;
        response.push(format!("{} out", self.0));
        Ok(response)
    }
}

struct Deny;

impl Interceptor<Vec<String>, Vec<String>, String> for Deny {
    fn intercept(
        &self,
        _request: Vec<String>,
        _next: &dyn Handler<Vec<String>, Vec<String>, String>,
    ) -> Result<Vec<String>, String> {
        Err("denied".to_string())
    }
}

struct Echo;

impl Handler<Vec<String>, Vec<String>, String> for Echo {
    fn handle(&self, mut request: Vec<String>) -> Result<Vec<String>, String> {
        request.push("handled".to_string());
        Ok(request)
    }
}

#[test]
fn first_interceptor_is_outermost() {
    let layer = SharedInterceptorLayer::new(vec![
        Box::new(Tag("a")) as Box<dyn Interceptor<Vec<String>, Vec<String>, String>>,
        Box::new(Tag("b")),
    ]);
    assert_eq!(
        layer.call(Vec::new(), &Echo),
        Ok(vec!["a in", "b in", "handled", "b out", "a out"]
            .into_iter()
            .map(String::from)
            .collect::<Vec<_>>())
    );
    let bare: SharedInterceptorLayer<Vec<String>, Vec<String>, String> =
        SharedInterceptorLayer::new(Vec::new());
    assert_eq!(bare.call(Vec::new(), &Echo), Ok(vec!["handled".to_string()]));
    let stopped = SharedInterceptorLayer::new(vec![
        Box::new(Tag("a")) as Box<dyn Interceptor<Vec<String>, Vec<String>, String>>,
        Box::new(Deny),
        Box::new(Tag("c")),
    ]);
    assert_eq!(stopped.call(Vec::new(), &Echo), Err("denied".to_string()));
}

#[test]
fn guards_of_one_type_are_asked_in_order() {
    let guards = vec![
        Box::new(HeaderGuard { header: "a", denial: GuardError::Unauthorized }),
        Box::new(HeaderGuard { header: "b", denial: GuardError::Forbidden }),
    ];
    assert_eq!(check_all(&guards, &vec!["a", "b"]), Ok(()));
    assert_eq!(
        check_all(&guards, &vec!["b"]),
        Err(GuardError::Unauthorized("missing a".to_string()))
    );
    assert_eq!(check_all(&guards, &vec!["a"]), Err(GuardError::Forbidden("missing b".to_string())));
    let none: Vec<Box<HeaderGuard>> = Vec::new();
    assert_eq!(check_all(&none, &vec![]), Ok(()));
}

#[test]
fn chain_hands_the_request_on_and_the_answer_back() {
    let interceptors = vec![Box::new(Tag("x")), Box::new(Tag("y"))];
    assert_eq!(
        run_chain(&interceptors, Vec::new(), &Echo),
        Ok(vec!["x in", "y in", "handled", "y out", "x out"]
            .into_iter()
            .map(String::from)
            .collect::<Vec<_>>())
    );
    let chain = Next::new(&interceptors, &Echo);
    assert_eq!(
        chain.handle(vec!["start".to_string()]).map(|answer| answer.len()),
        Ok(6)
    );
    assert_eq!(
        intercept_with(&Tag("z"), Vec::new(), &Echo),
        Ok(vec!["z in".to_string(), "handled".to_string(), "z out".to_string()])
    );
    assert_eq!(intercept_with(&Deny, Vec::new(), &Echo), Err("denied".to_string()));
    let none: Vec<Box<Tag>> = Vec::new();
    assert_eq!(run_chain(&none, Vec::new(), &Echo), Ok(vec!["handled".to_string()]));
}
