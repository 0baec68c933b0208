//! The route table, the answer where no route matches, and the layers
//! around them.

use vstd::prelude::*;

use crate::cors::{site_policy, site_policy_is_fit, CorsPolicy, CorsPolicyView};
use crate::http::{NOT_FOUND, REQUEST_TIMEOUT};
use crate::origins::{echo, AllowedOrigins};
use crate::reply::{page_is_presentable, Reply, ReplyView};
use crate::text::{field_value, plain_path, text_of, texts};
use axum::body::Body;
use axum::http::Response;
use axum::Router;

pub mod index;
pub mod link;

verus! {

/// Where the landing page is.
pub const ROOT: &'static str = "/";

/// Where the link to the wiki is.
pub const WIKI_PATH: &'static str = "/link/wiki";

/// Where the link to the source is.
pub const GITHUB_PATH: &'static str = "/link/github";

/// After how many seconds a request is given up.
pub const TIMEOUT_SECS: u64 = 90;

/// The handlers of the site.
#[derive(Clone, Copy, Debug, PartialEq, Eq, Structural)]
pub enum Handler {
    Index,
    Wiki,
    Github,
}

impl Handler {
    /// What the handler answers, whatever the request.
    pub open spec fn answer(self) -> ReplyView {
        match self {
            Handler::Index => ReplyView::page(index::INDEX_HTML@),
            Handler::Wiki => ReplyView::moved(link::WIKI_URL@),
            Handler::Github => ReplyView::moved(link::GITHUB_URL@),
        }
    }

    /// Runs the handler.
    pub fn reply(self) -> (reply: Reply)
        ensures
            reply@ == self.answer(),
    {
        match self {
            Handler::Index => index::index(),
            Handler::Wiki => link::wiki(),
            Handler::Github => link::github(),
        }
    }

    /// Runs the handler and writes its reply out.
    pub fn respond(self) -> (response: Response<Body>)
        ensures
            response == written(self.answer(), None),
    {
        proof {
            self.answer_is_presentable();
        }
        present(self.reply(), None)
    }

    /// No handler answers with the timeout status.
    pub proof fn answer_is_not_timeout(self)
        ensures
            self.answer().status != REQUEST_TIMEOUT,
            self.answer().without_body().status != REQUEST_TIMEOUT,
    {
    }

    /// Every handler's answer can be written out as it stands.
    pub proof fn answer_is_presentable(self)
        ensures
            self.answer().presentable(),
    {
        page_is_presentable(index::INDEX_HTML@);
        link::links_are_presentable();
    }
}

/// A layer of the router.
pub enum Layer {
    /// Gives a request up after `secs` seconds and answers with `status`.
    Timeout { status: u16, secs: u64 },
    /// Answers preflights and adds the cross-origin headers.
    Cors(CorsPolicyView),
    /// Records each request and its answer.
    Trace,
}

/// `axum::Router`, known by its routes, its answer where none matches, and
/// the layers around them.
#[verifier::external_type_specification]
#[verifier::external_body]
#[verifier::reject_recursive_types(S)]
pub struct ExRouter<S>(Router<S>);

/// `axum::body::Body`, which is only handed on.
#[verifier::external_type_specification]
#[verifier::external_body]
pub struct ExBody(Body);

/// `http::Response`, which is only handed on.
#[verifier::external_type_specification]
#[verifier::external_body]
#[verifier::reject_recursive_types(T)]
pub struct ExResponse<T>(Response<T>);

/// The response that holds a reply: its status, its content type and
/// location as the headers of those names, where it has them, and its body;
/// and with it `allow_origin` as `Access-Control-Allow-Origin`, where there
/// is one.
pub uninterp spec fn written(reply: ReplyView, allow_origin: Option<Seq<char>>) -> Response<Body>;

/// `axum::response::IntoResponse::into_response` on a status, optional
/// headers and a body: writes `reply` out as a response, with `allow_origin`
/// as one more header.
#[verifier::external_body]
fn present(reply: Reply, allow_origin: Option<String>) -> (response: Response<Body>)
    requires
        reply@.presentable(),
        allow_origin matches Some(o) ==> field_value(o@),
    ensures
        response == written(reply@, text_of(allow_origin)),
{
    let status = axum::http::StatusCode::from_u16(reply.status).unwrap();
    let kind = reply.content_type.map(|v| [(axum::http::header::CONTENT_TYPE, v)]);
    let target = reply.location.map(|v| [(axum::http::header::LOCATION, v)]);
    let back = allow_origin.map(|v| [(axum::http::header::ACCESS_CONTROL_ALLOW_ORIGIN, v)]);
    let body = Body::from(reply.body);
    axum::response::IntoResponse::into_response((status, kind, target, back, body))
}

/// Answers a request that matches no route: not found, whatever the method,
/// and with the request's origin named back if it is an allowed one.
pub fn not_found(allowed: &AllowedOrigins, origin: Option<String>) -> (response: Response<Body>)
    ensures
        response == written(ReplyView::bare(NOT_FOUND), echo(allowed@, text_of(origin))),
{
    present(Reply::bare(NOT_FOUND), allowed.echo(origin))
}

/// The routes of a router: for each path that is registered, the handler
/// whose written reply a `GET` request for that path receives.
pub uninterp spec fn routes_of(router: Router) -> Map<Seq<char>, Handler>;

/// The layers around every route of a router, the innermost first.
pub uninterp spec fn layers_of(router: Router) -> Seq<Layer>;

/// The origins that a router names back where no route matches: a request
/// for a path without a route is answered with a bare 404, whatever its
/// method, and with its `Origin` header as `Access-Control-Allow-Origin` if
/// that is one of these.
pub uninterp spec fn named_back_of(router: Router) -> Seq<Seq<char>>;

/// The layers around a router's answer to requests that match no route, the
/// innermost first.
pub uninterp spec fn fallback_layers_of(router: Router) -> Seq<Layer>;

/// `axum::Router::new`: a router without routes or layers, which answers
/// every request with a bare 404.
#[verifier::external_body]
fn new_router() -> (router: Router)
    ensures
        routes_of(router) == (Map::<Seq<char>, Handler>::empty()),
        layers_of(router) == (Seq::<Layer>::empty()),
        named_back_of(router) == (Seq::<Seq<char>>::empty()),
        fallback_layers_of(router) == (Seq::<Layer>::empty()),
{
    Router::new()
}

/// `axum::Router::route` with `axum::routing::get`: registers `handler` for
/// `GET` requests to `path`, which is matched letter for letter. The layers
/// stay as they were; the new route is inside none of them, so there must be
/// none.
#[verifier::external_body]
fn route_get(router: Router, path: &str, handler: Handler) -> (out: Router)
    requires
        plain_path(path@),
        !routes_of(router).contains_key(path@),
        layers_of(router).len() == 0,
    ensures
        routes_of(out) == routes_of(router).insert(path@, handler),
        layers_of(out) == layers_of(router),
        named_back_of(out) == named_back_of(router),
        fallback_layers_of(out) == fallback_layers_of(router),
{
    router.route(path, axum::routing::get(move || std::future::ready(handler.respond())))
}

/// `axum::Router::fallback`: lets `not_found` over `allowed` answer every
/// request that matches no route, with the request's `Origin` header where it
/// has one of tabs and printable ASCII alone. The answer is inside no layer,
/// so there must be none around it yet.
#[verifier::external_body]
fn fallback_not_found(router: Router, allowed: AllowedOrigins) -> (out: Router)
    requires
        fallback_layers_of(router).len() == 0,
    ensures
        routes_of(out) == routes_of(router),
        layers_of(out) == layers_of(router),
        named_back_of(out) == allowed@,
        fallback_layers_of(out) == fallback_layers_of(router),
{
    router.fallback(move |headers: axum::http::HeaderMap| {
        let origin = headers.get(axum::http::header::ORIGIN).and_then(|v| v.to_str().ok());
        std::future::ready(not_found(&allowed, origin.map(String::from)))
    })
}

/// `axum::Router::layer` with `tower_http::timeout::TimeoutLayer::with_status_code`:
/// puts a timeout of `secs` seconds, answered with `status`, around every
/// route and around the answer where none matches.
#[verifier::external_body]
fn layer_timeout(router: Router, status: u16, secs: u64) -> (out: Router)
    requires
        100 <= status <= 999,
    ensures
        routes_of(out) == routes_of(router),
        layers_of(out) == layers_of(router).push((Layer::Timeout { status, secs })),
        named_back_of(out) == named_back_of(router),
        fallback_layers_of(out) == fallback_layers_of(router).push(
            (Layer::Timeout { status, secs }),
        ),
{
    let status = axum::http::StatusCode::from_u16(status).unwrap();
    let limit = std::time::Duration::from_secs(secs);
    router.layer(tower_http::timeout::TimeoutLayer::with_status_code(status, limit))
}

/// The policy that lists of origins, methods and header names make.
pub open spec fn policy_of(
    origins: Seq<String>,
    methods: Seq<String>,
    headers: Seq<String>,
) -> CorsPolicyView {
    CorsPolicyView { origins: texts(origins), methods: texts(methods), headers: texts(headers) }
}

/// `axum::Router::route_layer` with `tower_http::cors::CorsLayer`: puts a
/// cross-origin layer around every route, and not around the answer where
/// none matches. The layer allows the given origins (`AllowOrigin::list`),
/// request headers (`AllowHeaders::list`) and methods (`AllowMethods::list`),
/// and has no other setting. There must be a route.
#[verifier::external_body]
fn route_layer_cors(
    router: Router,
    origins: &Vec<String>,
    methods: &Vec<String>,
    headers: &Vec<String>,
) -> (out: Router)
    requires
        policy_of(origins@, methods@, headers@).fit(),
        exists|path: Seq<char>| routes_of(router).contains_key(path),
    ensures
        routes_of(out) == routes_of(router),
        layers_of(out) == layers_of(router).push(
            Layer::Cors(policy_of(origins@, methods@, headers@)),
        ),
        named_back_of(out) == named_back_of(router),
        fallback_layers_of(out) == fallback_layers_of(router),
{
    let origins = origins.iter().map(|o| axum::http::HeaderValue::from_str(o).unwrap());
    let methods = methods.iter().map(|m| axum::http::Method::from_bytes(m.as_bytes()).unwrap());
    let headers = headers.iter().map(|h| axum::http::HeaderName::from_bytes(h.as_bytes()).unwrap());
    router.route_layer(
        tower_http::cors::CorsLayer::new()
            .allow_origin(tower_http::cors::AllowOrigin::list(origins))
            .allow_headers(tower_http::cors::AllowHeaders::list(headers))
            .allow_methods(tower_http::cors::AllowMethods::list(methods)),
    )
}

/// `axum::Router::layer` with `tower_http::trace::TraceLayer::new_for_http`:
/// puts request tracing around every route and around the answer where none
/// matches.
#[verifier::external_body]
fn layer_trace(router: Router) -> (out: Router)
    ensures
        routes_of(out) == routes_of(router),
        layers_of(out) == layers_of(router).push(Layer::Trace),
        named_back_of(out) == named_back_of(router),
        fallback_layers_of(out) == fallback_layers_of(router).push(Layer::Trace),
{
    router.layer(tower_http::trace::TraceLayer::new_for_http())
}

/// The routes of the site.
pub open spec fn site_routes() -> Map<Seq<char>, Handler> {
    map![
        ROOT@ => Handler::Index,
        WIKI_PATH@ => Handler::Wiki,
        GITHUB_PATH@ => Handler::Github,
    ]
}

/// Whether `path` is one of the three paths of the site.
pub open spec fn known_path(path: Seq<char>) -> bool {
    path == ROOT@ || path == WIKI_PATH@ || path == GITHUB_PATH@
}

/// The three paths are plain, differ, and are exactly those with a route.
pub proof fn routes_are_known(path: Seq<char>)
    ensures
        plain_path(ROOT@) && plain_path(WIKI_PATH@) && plain_path(GITHUB_PATH@),
        ROOT@ != WIKI_PATH@ && ROOT@ != GITHUB_PATH@ && WIKI_PATH@ != GITHUB_PATH@,
        site_routes().contains_key(path) == known_path(path),
        site_routes().contains_key(ROOT@) && site_routes()[ROOT@] == Handler::Index,
        site_routes().contains_key(WIKI_PATH@) && site_routes()[WIKI_PATH@] == Handler::Wiki,
        site_routes().contains_key(GITHUB_PATH@) && site_routes()[GITHUB_PATH@] == Handler::Github,
{
    reveal_strlit("/");
    reveal_strlit("/link/wiki");
    reveal_strlit("/link/github");
    assert(ROOT@.len() == 1 && WIKI_PATH@.len() == 10 && GITHUB_PATH@.len() == 12);
}

/// The layers around the routes of the site under `policy`, the innermost
/// first: the timeout, the cross-origin policy, tracing.
pub open spec fn site_layers(policy: CorsPolicyView) -> Seq<Layer> {
    seq![
        Layer::Timeout { status: REQUEST_TIMEOUT, secs: TIMEOUT_SECS },
        Layer::Cors(policy),
        Layer::Trace,
    ]
}

/// The layers around the site's answer where no route matches, the innermost
/// first: the timeout and tracing.
pub open spec fn site_fallback_layers() -> Seq<Layer> {
    seq![Layer::Timeout { status: REQUEST_TIMEOUT, secs: TIMEOUT_SECS }, Layer::Trace]
}

/// Builds the router of the site: the three routes and the not-found answer
/// that names an allowed origin back; around all of them the timeout and
/// tracing, and around the routes, between those two, the cross-origin policy
/// over `origins`.
pub fn configure_routes(origins: AllowedOrigins) -> (router: Router)
    ensures
        routes_of(router) == site_routes(),
        layers_of(router) == site_layers(site_policy(origins@)),
        named_back_of(router) == origins@,
        fallback_layers_of(router) == site_fallback_layers(),
{
    let allowed = origins.clone();
    let policy = CorsPolicy::site(origins);
    proof {
        routes_are_known(ROOT@);
    }
    let router = new_router();
    let router = route_get(router, ROOT, Handler::Index);
    let router = route_get(router, WIKI_PATH, Handler::Wiki);
    let router = route_get(router, GITHUB_PATH, Handler::Github);
    let router = fallback_not_found(router, allowed);
    let router = layer_timeout(router, REQUEST_TIMEOUT, TIMEOUT_SECS);
    let listed = policy.origins();
    proof {
        site_policy_is_fit(origins@);
        assert(routes_of(router).contains_key(ROOT@));
    }
    let router = route_layer_cors(router, listed, policy.methods(), policy.headers());
    let router = layer_trace(router);
    proof {
        assert(routes_of(router) =~= site_routes());
        assert(layers_of(router) =~= site_layers(site_policy(origins@)));
        assert(fallback_layers_of(router) =~= site_fallback_layers());
    }
    router
}

} // verus!
