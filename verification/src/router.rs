//! The router: one registered path bound to the redirect, and a fallback for
//! everything else.

use vstd::prelude::*;
use vstd::string::*;

use crate::config::{ConfigView, RouteConfig};
use crate::path::{has_single_leading_slash, register, registered_path};
use crate::request::{IncomingRequest, RequestView, SocketAddress};
use crate::response::{
    handler_404, not_found_view, redirect, redirect_view, OutgoingResponse, ResponseView,
    LOCATION, NOT_FOUND_BODY, STATUS_MOVED_PERMANENTLY, STATUS_NOT_FOUND,
};

verus! {

/// How much a log event matters.
#[derive(Clone, Copy, Debug, PartialEq, Eq)]
pub enum LogLevel {
    Trace,
    Debug,
    Info,
    Warn,
    Error,
}

/// A structured log event: a connection was accepted from `client_address`.
/// The router does not write it anywhere; whoever runs the router does.
#[derive(Clone, Copy, Debug, PartialEq, Eq)]
pub struct LogEvent {
    pub level: LogLevel,
    pub client_address: SocketAddress,
}

/// Which of the router's two actions answers a path.
#[derive(Clone, Copy, Debug, PartialEq, Eq)]
pub enum Action {
    /// The path is the registered one.
    Redirect,
    /// Any other path.
    NotFound,
}

/// What one dispatch yields: the event to log before the response goes out,
/// if there is one, and the response.
#[derive(Clone, Debug, PartialEq, Eq)]
pub struct Dispatch {
    pub log: Option<LogEvent>,
    pub response: OutgoingResponse,
}

/// What a dispatch means.
pub struct DispatchView {
    pub log: Option<LogEvent>,
    pub response: ResponseView,
}

impl View for Dispatch {
    type V = DispatchView;

    open spec fn view(&self) -> DispatchView {
        DispatchView { log: self.log, response: self.response@ }
    }
}

/// What a router means: the path it redirects from and where to.
pub struct RouterView {
    pub route: Seq<char>,
    pub target: Seq<char>,
}

impl RouterView {
    /// The registered path begins with exactly one slash.
    pub open spec fn wf(self) -> bool {
        has_single_leading_slash(self.route)
    }

    /// The router that a configuration gives.
    pub open spec fn of(config: ConfigView) -> RouterView {
        RouterView { route: registered_path(config.old_path), target: config.new_path }
    }

    /// The action that answers `path`: the redirect where `path` is the
    /// registered path, character for character, the fallback otherwise.
    pub open spec fn select(self, path: Seq<char>) -> Action {
        if path == self.route {
            Action::Redirect
        } else {
            Action::NotFound
        }
    }

    /// The response to a request for `path`.
    pub open spec fn respond(self, path: Seq<char>) -> ResponseView {
        match self.select(path) {
            Action::Redirect => redirect_view(self.target),
            Action::NotFound => not_found_view(),
        }
    }

    /// The event that a request leaves in the log: one at debug level that
    /// names the client where the request is redirected, none otherwise.
    pub open spec fn log(self, request: RequestView) -> Option<LogEvent> {
        match self.select(request.path) {
            Action::Redirect => Some(
                LogEvent { level: LogLevel::Debug, client_address: request.client_address },
            ),
            Action::NotFound => None,
        }
    }

    /// The outcome of dispatching `request`.
    pub open spec fn dispatch(self, request: RequestView) -> DispatchView {
        DispatchView { log: self.log(request), response: self.respond(request.path) }
    }
}

/// A router with its one route registered.
#[derive(Debug, PartialEq, Eq)]
pub struct Router {
    route: String,
    target: String,
}

impl View for Router {
    type V = RouterView;

    closed spec fn view(&self) -> RouterView {
        RouterView { route: self.route@, target: self.target@ }
    }
}

impl Clone for Router {
    fn clone(&self) -> (copy: Router)
        ensures
            copy@ == self@,
    {
        proof {
            use_type_invariant(self);
        }
        Router { route: self.route.clone(), target: self.target.clone() }
    }
}

impl Router {
    #[verifier::type_invariant]
    spec fn inv(self) -> bool {
        self@.wf()
    }

    /// Registers the configured route: the configured path, brought to a
    /// single leading slash, is bound to a redirect to the configured target.
    pub fn new(config: &RouteConfig) -> (router: Router)
        ensures
            router@ == RouterView::of(config@),
            router@.wf(),
    {
        Router {
            route: register(config.old_path()),
            target: String::from_str(config.new_path()),
        }
    }

    /// The registered path.
    pub fn route(&self) -> (route: &str)
        ensures
            route@ == self@.route,
            has_single_leading_slash(route@),
    {
        proof {
            use_type_invariant(self);
        }
        self.route.as_str()
    }

    /// The redirect target.
    pub fn target(&self) -> (target: &str)
        ensures
            target@ == self@.target,
    {
        self.target.as_str()
    }

    /// Decides which action answers `path`. The comparison is exact: case
    /// matters, and so does a trailing slash.
    pub fn select(&self, path: &str) -> (action: Action)
        ensures
            action == self@.select(path@),
    {
        if path.to_owned() == self.route {
            Action::Redirect
        } else {
            Action::NotFound
        }
    }

    /// Answers one request. Every path gets a response: the redirect for the
    /// registered path, together with a debug event that names the client,
    /// and the fallback for any other.
    pub fn dispatch(&self, request: &IncomingRequest) -> (outcome: Dispatch)
        ensures
            outcome@ == self@.dispatch(request@),
            request@.path == self@.route ==> outcome@.response.status_code
                == STATUS_MOVED_PERMANENTLY && outcome@.response.headers.contains_key(LOCATION@)
                && outcome@.response.headers[LOCATION@] == self@.target,
            request@.path != self@.route ==> outcome@.response.status_code == STATUS_NOT_FOUND
                && outcome@.response.body == NOT_FOUND_BODY@,
    {
        match self.select(request.path.as_str()) {
            Action::Redirect => Dispatch {
                log: Some(
                    LogEvent { level: LogLevel::Debug, client_address: request.client_address },
                ),
                response: redirect(self.target.as_str()),
            },
            Action::NotFound => Dispatch { log: None, response: handler_404() },
        }
    }
}

/// A request for the configured path is answered with status 301, the
/// configured target, unchanged, as its `Location`, and no body.
pub proof fn lemma_configured_path_redirects(config: ConfigView, request: RequestView)
    requires
        request.path == registered_path(config.old_path),
    ensures
        RouterView::of(config).dispatch(request).response == redirect_view(config.new_path),
        RouterView::of(config).dispatch(request).response.status_code == 301,
        RouterView::of(config).dispatch(request).response.headers.contains_key("Location"@),
        RouterView::of(config).dispatch(request).response.headers["Location"@] == config.new_path,
        RouterView::of(config).dispatch(request).response.body.len() == 0,
{
}

/// A request for any other path, however close, is answered with status 404
/// and the fixed body.
pub proof fn lemma_other_path_not_found(config: ConfigView, request: RequestView)
    requires
        request.path != registered_path(config.old_path),
    ensures
        RouterView::of(config).dispatch(request).response == not_found_view(),
        RouterView::of(config).dispatch(request).response.status_code == 404,
        RouterView::of(config).dispatch(request).response.body == "nothing to see here"@,
{
}

/// The response to a request is decided by its path alone: two requests for
/// the same path get the same response from the same router, whoever sent
/// them and whatever was dispatched before.
pub proof fn lemma_dispatch_decided_by_path(router: RouterView, a: RequestView, b: RequestView)
    requires
        a.path == b.path,
    ensures
        router.dispatch(a).response == router.dispatch(b).response,
        router.dispatch(a).response == router.respond(a.path),
{
}

/// A redirect is logged, a fallback is not: an event comes out exactly where
/// the path is the registered one, and it names the request's client.
pub proof fn lemma_dispatch_logs_matches(router: RouterView, request: RequestView)
    ensures
        router.dispatch(request).log is Some <==> request.path == router.route,
        router.dispatch(request).log matches Some(event) ==> event.level == LogLevel::Debug
            && event.client_address == request.client_address,
{
}

} // verus!
