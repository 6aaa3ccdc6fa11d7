use axum::body::Body;
use axum::extract::Request;
use axum::http::StatusCode;
use axum::response::{IntoResponse, Response};
use axum::routing::{get, post, MethodRouter};
use axum::Router;
use axum_guard_router::action::Action;
use axum_guard_router::layer::GuardActionLayer;
use axum_guard_router::router::GuardedRoute;
use axum_guard_router::service::{GuardService, Step};
use axum_guard_router::{GuardRouter, OnGuard};
use futures::future::BoxFuture;
use std::future::Future;
use std::sync::{Arc, Mutex};
use std::task::{Context, Poll};
use tower::{Layer, Service, ServiceExt};

/// A guard whose answers are awaited; it records every question.
#[derive(Clone)]
struct SlowGuard {
    guard_result: bool,
    roles_result: bool,
    asked: Arc<Mutex<Vec<String>>>,
}

impl SlowGuard {
    fn new_with(guard_result: bool, roles_result: bool) -> Self {
        SlowGuard { guard_result, roles_result, asked: Arc::new(Mutex::new(Vec::new())) }
    }

    fn asked(&self) -> Vec<String> {
        self.asked.lock().unwrap().clone()
    }

    fn answer(allowed: bool) -> Result<(), Response> {
        match allowed {
            true => Ok(()),
            false => Err((StatusCode::FORBIDDEN, "error").into_response()),
        }
    }

    fn guard_answer(
        &self,
        resource: &str,
        action: &str,
    ) -> impl Future<Output = Result<(), Response>> + Send {
        self.asked.lock().unwrap().push(format!("guard {resource} {action}"));
        let allowed = self.guard_result;
        async move {
            futures::future::ready(()).await;
            SlowGuard::answer(allowed)
        }
    }

    fn roles_answer(&self, roles: &[String]) -> impl Future<Output = Result<(), Response>> + Send {
        self.asked.lock().unwrap().push(format!("roles {}", roles.join(",")));
        let allowed = self.roles_result;
        async move {
            futures::future::ready(()).await;
            SlowGuard::answer(allowed)
        }
    }
}

impl OnGuard for SlowGuard {
    fn on_guard(&self, resource: &str, action: &str) -> Result<(), Response> {
        futures::executor::block_on(self.guard_answer(resource, action))
    }

    fn on_roles(&self, roles: &[String]) -> Result<(), Response> {
        futures::executor::block_on(self.roles_answer(roles))
    }
}

#[derive(Clone)]
struct AwaitingLayer(GuardActionLayer<SlowGuard>);

#[derive(Clone)]
struct Awaiting<S>(GuardService<SlowGuard, S>);

impl<S> Layer<S> for AwaitingLayer {
    type Service = Awaiting<S>;

    fn layer(&self, inner: S) -> Self::Service {
        Awaiting(self.0.layer(inner))
    }
}

impl<S> Service<Request> for Awaiting<S>
where
    S: Service<Request, Response = Response> + Clone + Send + 'static,
    S::Future: Send + 'static,
{
    type Response = Response;
    type Error = S::Error;
    type Future = BoxFuture<'static, Result<Response, S::Error>>;

    fn poll_ready(&mut self, cx: &mut Context<'_>) -> Poll<Result<(), Self::Error>> {
        self.0.inner.poll_ready(cx)
    }

    fn call(&mut self, request: Request) -> Self::Future {
        let fresh = self.0.clone();
        let mut service = std::mem::replace(&mut self.0, fresh);
        Box::pin(async move {
            let second = match service.begin() {
                Step::AskRoles(roles) => {
                    let answer = service.guard.roles_answer(roles).await;
                    service.after_roles(answer)
                }
                first => first,
            };
            let last = match second {
                Step::AskGuard(resource, action) => {
                    let answer = service.guard.guard_answer(resource, action).await;
                    service.after_guard(answer)
                }
                other => other,
            };
            let rejected = match last {
                Step::Reject(response) => Some(response),
                _ => None,
            };
            match rejected {
                Some(response) => Ok(response),
                None => service.inner.call(request).await,
            }
        })
    }
}

fn serve_awaiting(routes: Vec<GuardedRoute<SlowGuard, ()>>) -> Router {
    let mut router = Router::new();
    for route in routes {
        let mut methods = MethodRouter::new();
        for (layer, handlers) in route.handlers {
            methods = methods.merge(handlers.route_layer(AwaitingLayer(layer)));
        }
        router = router.route(&route.path, methods);
    }
    router
}

fn status(app: &Router, method: &str, uri: &str) -> StatusCode {
    let request = Request::builder().method(method).uri(uri).body(Body::empty()).unwrap();
    futures::executor::block_on(app.clone().oneshot(request)).unwrap().status()
}

fn built(guard: &SlowGuard, roles: &[&str]) -> Router {
    let roles: Vec<String> = roles.iter().map(|name| name.to_string()).collect();
    let routes = GuardRouter::<SlowGuard, ()>::new("my:test", Arc::new(guard.clone()))
        .roles(&roles)
        .route("/test", Action::new().on("action1", get(done)).on("action2", post(done)))
        .build();
    serve_awaiting(routes)
}

async fn done() {}

#[test]
fn awaited_guard_allows() {
    let guard = SlowGuard::new_with(true, true);
    let app = Router::new().nest("/api", built(&guard, &["admin"]));
    assert_eq!(status(&app, "GET", "/api/test"), StatusCode::OK);
    assert_eq!(status(&app, "POST", "/api/test"), StatusCode::OK);
    assert_eq!(
        guard.asked(),
        vec![
            "roles admin".to_string(),
            "guard my:test action1".to_string(),
            "roles admin".to_string(),
            "guard my:test action2".to_string(),
        ]
    );
}

#[test]
fn awaited_roles_denial_skips_guard() {
    let guard = SlowGuard::new_with(true, false);
    let app = built(&guard, &["admin"]);
    assert_eq!(status(&app, "GET", "/test"), StatusCode::FORBIDDEN);
    assert_eq!(guard.asked(), vec!["roles admin".to_string()]);
}

#[test]
fn awaited_guard_denial_rejects() {
    let guard = SlowGuard::new_with(false, true);
    let app = built(&guard, &["admin"]);
    assert_eq!(status(&app, "POST", "/test"), StatusCode::FORBIDDEN);
    assert_eq!(
        guard.asked(),
        vec!["roles admin".to_string(), "guard my:test action2".to_string()]
    );
}

#[test]
fn awaited_guard_skips_empty_role_list() {
    let guard = SlowGuard::new_with(true, false);
    let app = built(&guard, &[]);
    assert_eq!(status(&app, "GET", "/test"), StatusCode::OK);
    assert_eq!(guard.asked(), vec!["guard my:test action1".to_string()]);
}

#[test]
fn awaited_and_immediate_answers_agree() {
    for (guard_result, roles_result) in [(true, true), (true, false), (false, true), (false, false)]
    {
        let awaited = SlowGuard::new_with(guard_result, roles_result);
        let app = built(&awaited, &["admin"]);
        let direct = SlowGuard::new_with(guard_result, roles_result);
        let service = GuardActionLayer::new(Arc::new(direct.clone()), "my:test", "action1")
            .roles(&Some(vec!["admin".to_string()]))
            .layer(());
        let allowed = service.check().is_ok();
        assert_eq!(status(&app, "GET", "/test") == StatusCode::OK, allowed);
        assert_eq!(awaited.asked(), direct.asked());
    }
}
