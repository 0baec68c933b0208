//! What the router answers, read off its routes, its layers and its answer
//! where no route matches; and what holds of every request to the site.

use vstd::prelude::*;

use crate::cors::{no_grant, site_policy, Grant};
use crate::http::{
    AUTHORIZATION, GET, HEAD, HTML, METHOD_NOT_ALLOWED, NOT_FOUND, OK, OPTIONS, POST, PUT,
    REQUEST_TIMEOUT,
};
use crate::origins::echo;
use crate::reply::ReplyView;
use crate::routes::index::INDEX_HTML;
use crate::routes::link::{GITHUB_URL, WIKI_URL};
use crate::routes::{fallback_layers_of, layers_of, named_back_of, routes_of};
use crate::routes::{known_path, routes_are_known, site_fallback_layers, site_layers, site_routes};
use crate::routes::{Handler, Layer, GITHUB_PATH, ROOT, TIMEOUT_SECS, WIKI_PATH};
use axum::Router;

verus! {

/// What the site reads of a request.
pub struct Request {
    pub method: Seq<char>,
    /// The path of the request's target, without the query.
    pub path: Seq<char>,
    /// The `Origin` header, where the request has one.
    pub origin: Option<Seq<char>>,
}

/// An answer of the site: a reply and the cross-origin headers with it.
pub struct Answer {
    pub reply: ReplyView,
    pub grant: Grant,
}

/// An answer and the milliseconds that it took.
pub struct Outcome {
    pub answer: Answer,
    pub took: nat,
}

/// What a route answers: its handler's reply to `GET`, that reply without its
/// body to `HEAD`, and to any other method that it is not allowed.
pub open spec fn routed(handler: Handler, method: Seq<char>) -> ReplyView {
    if method == GET@ {
        handler.answer()
    } else if method == HEAD@ {
        handler.answer().without_body()
    } else {
        ReplyView::bare(METHOD_NOT_ALLOWED)
    }
}

/// What is answered where no route matches: not found, whatever the method,
/// with the request's origin named back if it is one of `named_back`.
pub open spec fn unmatched(named_back: Seq<Seq<char>>, request: Request) -> Answer {
    Answer {
        reply: ReplyView::bare(NOT_FOUND),
        grant: Grant { allow_origin: echo(named_back, request.origin), ..no_grant() },
    }
}

impl Layer {
    /// What the layer makes of a request, given the outcome of what it is
    /// around.
    ///
    /// A timeout lets pass what came within its limit and puts its own bare
    /// status in place of what took longer. The cross-origin layer answers a
    /// preflight itself, at once and with an empty 200, and asks nothing of
    /// what it is around; to any other request it names the origin back if
    /// the policy allows it. Tracing changes nothing.
    pub open spec fn around(self, request: Request, inner: Outcome) -> Outcome {
        match self {
            Layer::Timeout { status, secs } => if inner.took > secs * 1000 {
                Outcome {
                    answer: Answer { reply: ReplyView::bare(status), grant: no_grant() },
                    took: (secs * 1000) as nat,
                }
            } else {
                inner
            },
            Layer::Cors(policy) => if request.method == OPTIONS@ {
                Outcome {
                    answer: Answer {
                        reply: ReplyView::bare(OK),
                        grant: policy.grant(true, request.origin),
                    },
                    took: 0,
                }
            } else {
                Outcome {
                    answer: Answer {
                        reply: inner.answer.reply,
                        grant: Grant {
                            allow_origin: match echo(policy.origins, request.origin) {
                                Some(o) => Some(o),
                                None => inner.answer.grant.allow_origin,
                            },
                            ..inner.answer.grant
                        },
                    },
                    took: inner.took,
                }
            },
            Layer::Trace => inner,
        }
    }
}

/// The outcome of a request that goes through `layers`, the last of them
/// first, to what is inside them, which has the outcome `inner`.
pub open spec fn through(layers: Seq<Layer>, request: Request, inner: Outcome) -> Outcome
    decreases layers.len(),
{
    if layers.len() == 0 {
        inner
    } else {
        layers.last().around(request, through(layers.drop_last(), request, inner))
    }
}

/// What a router of the given routes and layers answers to `request`, where
/// the handler, or what answers in its place, takes `delay` milliseconds. A
/// request whose path has a route goes through the layers around the routes
/// to that route; any other goes through the layers around the not-found
/// answer to that answer.
pub open spec fn reading(
    routes: Map<Seq<char>, Handler>,
    layers: Seq<Layer>,
    named_back: Seq<Seq<char>>,
    fallback_layers: Seq<Layer>,
    request: Request,
    delay: nat,
) -> Answer {
    if routes.contains_key(request.path) {
        through(
            layers,
            request,
            Outcome {
                answer: Answer {
                    reply: routed(routes[request.path], request.method),
                    grant: no_grant(),
                },
                took: delay,
            },
        ).answer
    } else {
        through(
            fallback_layers,
            request,
            Outcome { answer: unmatched(named_back, request), took: delay },
        ).answer
    }
}

/// What `router` answers to `request`, where the handler takes `delay`
/// milliseconds.
pub open spec fn answer_of(router: Router, request: Request, delay: nat) -> Answer {
    reading(
        routes_of(router),
        layers_of(router),
        named_back_of(router),
        fallback_layers_of(router),
        request,
        delay,
    )
}

/// What the site over `origins` answers to `request`, where the handler takes
/// `delay` milliseconds.
pub open spec fn served(origins: Seq<Seq<char>>, request: Request, delay: nat) -> Answer {
    reading(
        site_routes(),
        site_layers(site_policy(origins)),
        origins,
        site_fallback_layers(),
        request,
        delay,
    )
}

/// A router with the routes and layers of the site, as `configure_routes`
/// builds it over `origins`, answers as the site does.
pub proof fn router_answers_as_site(
    router: Router,
    origins: Seq<Seq<char>>,
    request: Request,
    delay: nat,
)
    requires
        routes_of(router) == site_routes(),
        layers_of(router) == site_layers(site_policy(origins)),
        named_back_of(router) == origins,
        fallback_layers_of(router) == site_fallback_layers(),
    ensures
        answer_of(router, request, delay) == served(origins, request, delay),
{
}

/// The site's answer, layer by layer: on a path with a route through the
/// timeout, the cross-origin layer and tracing; on any other through the
/// timeout and tracing.
pub proof fn unfold_site(origins: Seq<Seq<char>>, request: Request, delay: nat)
    ensures
        known_path(request.path) ==> served(origins, request, delay) == (Layer::Trace).around(
            request,
            Layer::Cors(site_policy(origins)).around(
                request,
                (Layer::Timeout { status: REQUEST_TIMEOUT, secs: TIMEOUT_SECS }).around(
                    request,
                    Outcome {
                        answer: Answer {
                            reply: routed(site_routes()[request.path], request.method),
                            grant: no_grant(),
                        },
                        took: delay,
                    },
                ),
            ),
        ).answer,
        !known_path(request.path) ==> served(origins, request, delay) == (Layer::Trace).around(
            request,
            (Layer::Timeout { status: REQUEST_TIMEOUT, secs: TIMEOUT_SECS }).around(
                request,
                Outcome { answer: unmatched(origins, request), took: delay },
            ),
        ).answer,
{
    routes_are_known(request.path);
    let layers = site_layers(site_policy(origins));
    assert(layers.drop_last() =~= seq![layers[0], layers[1]]);
    assert(layers.drop_last().drop_last() =~= seq![layers[0]]);
    assert(layers.drop_last().drop_last().drop_last() =~= Seq::<Layer>::empty());
    let outer = site_fallback_layers();
    assert(outer.drop_last() =~= seq![outer[0]]);
    assert(outer.drop_last().drop_last() =~= Seq::<Layer>::empty());
    reveal_with_fuel(through, 4);
}

/// Every `GET` for `/` that is answered in time gets the landing page: status
/// 200, the HTML content type and the page's text, the same each time and
/// whatever else the request holds.
pub proof fn landing_page_is_served(origins: Seq<Seq<char>>, request: Request, delay: nat)
    requires
        request.method == GET@,
        request.path == ROOT@,
        delay <= TIMEOUT_SECS * 1000,
    ensures
        served(origins, request, delay).reply == ReplyView::page(INDEX_HTML@),
        served(origins, request, delay).reply.status == 200,
        served(origins, request, delay).reply.content_type == Some(HTML@),
        served(origins, request, delay).reply.body == INDEX_HTML@,
{
    unfold_site(origins, request, delay);
    routes_are_known(request.path);
    methods_differ();
}

/// Every `GET` for `/link/wiki` that is answered in time is sent to the wiki
/// with status 301.
pub proof fn wiki_is_moved(origins: Seq<Seq<char>>, request: Request, delay: nat)
    requires
        request.method == GET@,
        request.path == WIKI_PATH@,
        delay <= TIMEOUT_SECS * 1000,
    ensures
        served(origins, request, delay).reply == ReplyView::moved(WIKI_URL@),
        served(origins, request, delay).reply.status == 301,
        served(origins, request, delay).reply.location == Some(WIKI_URL@),
{
    unfold_site(origins, request, delay);
    routes_are_known(request.path);
    methods_differ();
}

/// Every `GET` for `/link/github` that is answered in time is sent to the
/// source with status 301.
pub proof fn github_is_moved(origins: Seq<Seq<char>>, request: Request, delay: nat)
    requires
        request.method == GET@,
        request.path == GITHUB_PATH@,
        delay <= TIMEOUT_SECS * 1000,
    ensures
        served(origins, request, delay).reply == ReplyView::moved(GITHUB_URL@),
        served(origins, request, delay).reply.status == 301,
        served(origins, request, delay).reply.location == Some(GITHUB_URL@),
{
    unfold_site(origins, request, delay);
    routes_are_known(request.path);
    methods_differ();
}

/// Every request for a path other than the three that is answered in time is
/// not found: status 404, whatever the method, a preflight's too.
pub proof fn unknown_path_is_not_found(origins: Seq<Seq<char>>, request: Request, delay: nat)
    requires
        !known_path(request.path),
        delay <= TIMEOUT_SECS * 1000,
    ensures
        served(origins, request, delay).reply == ReplyView::bare(NOT_FOUND),
        served(origins, request, delay).reply.status == 404,
{
    unfold_site(origins, request, delay);
}

/// A request whose handler takes more than 90 seconds gets the bare timeout
/// status in place of the handler's reply. A preflight on one of the three
/// paths is no such request: no handler runs for it.
pub proof fn late_reply_is_timeout(origins: Seq<Seq<char>>, request: Request, delay: nat)
    requires
        request.method != OPTIONS@ || !known_path(request.path),
        delay > 90 * 1000,
    ensures
        served(origins, request, delay).reply == ReplyView::bare(REQUEST_TIMEOUT),
        served(origins, request, delay).reply.status == 408,
        known_path(request.path) ==> served(origins, request, delay).reply != routed(
            site_routes()[request.path],
            request.method,
        ),
        !known_path(request.path) ==> served(origins, request, delay).reply != unmatched(
            origins,
            request,
        ).reply,
{
    unfold_site(origins, request, delay);
    routes_are_known(request.path);
    Handler::Index.answer_is_not_timeout();
    Handler::Wiki.answer_is_not_timeout();
    Handler::Github.answer_is_not_timeout();
}

/// A preflight on one of the three paths is granted `GET`, `POST` and `PUT`
/// and the `Authorization` header, and its origin is named back if and only
/// if it is an allowed one.
pub proof fn preflight_is_granted(origins: Seq<Seq<char>>, request: Request, delay: nat)
    requires
        request.method == OPTIONS@,
        known_path(request.path),
    ensures
        served(origins, request, delay).reply == ReplyView::bare(OK),
        served(origins, request, delay).grant.allow_methods == seq![GET@, POST@, PUT@],
        served(origins, request, delay).grant.allow_headers == seq![AUTHORIZATION@],
        served(origins, request, delay).grant.allow_origin == (match request.origin {
            Some(origin) => if origins.contains(origin) {
                Some(origin)
            } else {
                None
            },
            None => None,
        }),
{
    unfold_site(origins, request, delay);
}

/// On every path and whatever the method, a request gets its origin named
/// back if and only if it is an allowed one; on a path without a route, where
/// the answer came in time.
pub proof fn origin_is_named_back(origins: Seq<Seq<char>>, request: Request, delay: nat)
    requires
        known_path(request.path) || delay <= TIMEOUT_SECS * 1000,
    ensures
        served(origins, request, delay).grant.allow_origin == echo(origins, request.origin),
{
    unfold_site(origins, request, delay);
}

/// Only a preflight on one of the three paths is given a list of methods or
/// of headers.
pub proof fn lists_are_for_preflights(origins: Seq<Seq<char>>, request: Request, delay: nat)
    requires
        request.method != OPTIONS@ || !known_path(request.path),
    ensures
        served(origins, request, delay).grant.allow_methods == Seq::<Seq<char>>::empty(),
        served(origins, request, delay).grant.allow_headers == Seq::<Seq<char>>::empty(),
{
    unfold_site(origins, request, delay);
}

/// The names of the methods that the site tells apart are not the same.
pub proof fn methods_differ()
    ensures
        GET@ != HEAD@,
        GET@ != OPTIONS@,
        HEAD@ != OPTIONS@,
{
    reveal_strlit("GET");
    reveal_strlit("HEAD");
    reveal_strlit("OPTIONS");
    assert(GET@.len() == 3 && HEAD@.len() == 4 && OPTIONS@.len() == 7);
}

} // verus!
