use std::io::Write;
use std::sync::{Arc, Mutex};

use authly::origins::AllowedOrigins;
use authly::routes::configure_routes;
use authly::routes::index::INDEX_HTML;
use axum::body::Body;
use axum::http::HeaderMap;
use axum::Router;
use tower::ServiceExt;

const ORIGIN: &str = "http://192.168.178.58";

const WIKI: &str = "https://github.com/Arteiii/Authly/wiki";

const GITHUB: &str = "https://github.com/Arteiii/Authly";

const KNOWN: [&str; 3] = ["/", "/link/wiki", "/link/github"];

const UNKNOWN: [&str; 6] = ["/nope", "/link", "/link/wiki/", "/Link/wiki", "/index.html", "//"];

const METHODS: [&str; 9] =
    ["GET", "HEAD", "POST", "PUT", "DELETE", "PATCH", "OPTIONS", "TRACE", "BREW"];

/// What a test reads of a response.
#[derive(Clone, Debug, PartialEq, Eq)]
struct Seen {
    status: u16,
    content_type: Option<String>,
    location: Option<String>,
    body: String,
    allow_origin: Option<String>,
    allow_methods: Vec<String>,
    allow_headers: Vec<String>,
}

fn origins() -> AllowedOrigins {
    AllowedOrigins::from_list(vec![ORIGIN.to_string()]).unwrap()
}

fn request(method: &str, path: &str, origin: Option<&str>) -> axum::http::Request<Body> {
    let mut request = axum::http::Request::builder().method(method).uri(path);
    if let Some(origin) = origin {
        request = request.header("origin", origin);
    }
    request.body(Body::empty()).unwrap()
}

fn text(headers: &HeaderMap, name: &str) -> Option<String> {
    headers.get(name).map(|v| v.to_str().unwrap().to_string())
}

fn items(headers: &HeaderMap, name: &str) -> Vec<String> {
    match headers.get(name) {
        Some(v) => v.to_str().unwrap().split(',').map(|s| s.to_string()).collect(),
        None => Vec::new(),
    }
}

async fn ask(router: Router, method: &str, path: &str, origin: Option<&str>) -> Seen {
    let response = router.oneshot(request(method, path, origin)).await.unwrap();
    let (parts, body) = response.into_parts();
    let bytes = axum::body::to_bytes(body, usize::MAX).await.unwrap();
    Seen {
        status: parts.status.as_u16(),
        content_type: text(&parts.headers, "content-type"),
        location: text(&parts.headers, "location"),
        body: String::from_utf8(bytes.to_vec()).unwrap(),
        allow_origin: text(&parts.headers, "access-control-allow-origin"),
        allow_methods: items(&parts.headers, "access-control-allow-methods"),
        allow_headers: items(&parts.headers, "access-control-allow-headers"),
    }
}

fn send(method: &str, path: &str, origin: Option<&str>) -> Seen {
    let runtime = tokio::runtime::Builder::new_current_thread().enable_all().build().unwrap();
    runtime.block_on(ask(configure_routes(origins()), method, path, origin))
}

fn bare(status: u16) -> Seen {
    Seen {
        status,
        content_type: None,
        location: None,
        body: String::new(),
        allow_origin: None,
        allow_methods: Vec::new(),
        allow_headers: Vec::new(),
    }
}

#[test]
fn get_root_is_the_page() {
    let seen = send("GET", "/", None);
    assert_eq!(
        seen,
        Seen {
            content_type: Some("text/html; charset=utf-8".to_string()),
            body: INDEX_HTML.to_string(),
            ..bare(200)
        }
    );
}

#[test]
fn get_root_is_the_same_each_time() {
    let first = send("GET", "/", None);
    for _ in 0..5 {
        assert_eq!(send("GET", "/", None), first);
    }
    let other = send("GET", "/", Some("http://elsewhere.example"));
    assert_eq!(other, first);
}

#[test]
fn get_wiki_is_moved_for_good() {
    let seen = send("GET", "/link/wiki", None);
    assert_eq!(seen, Seen { location: Some(WIKI.to_string()), ..bare(301) });
}

#[test]
fn get_github_is_moved_for_good() {
    let seen = send("GET", "/link/github", None);
    assert_eq!(seen, Seen { location: Some(GITHUB.to_string()), ..bare(301) });
}

#[test]
fn query_is_no_part_of_the_path() {
    let seen = send("GET", "/?lang=en", None);
    assert_eq!(seen.status, 200);
    assert_eq!(seen.body, INDEX_HTML);
    assert_eq!(send("GET", "/link/wiki?x=1", None).status, 301);
    assert_eq!(send("OPTIONS", "/nope?x=1", None).status, 404);
}

#[test]
fn other_paths_are_not_found_whatever_the_method() {
    for method in METHODS {
        for path in UNKNOWN {
            assert_eq!(send(method, path, None), bare(404), "{method} {path}");
        }
    }
}

#[test]
fn preflight_on_another_path_is_not_found() {
    for path in UNKNOWN {
        assert_eq!(send("OPTIONS", path, None), bare(404), "{path}");
        assert_eq!(send("OPTIONS", path, Some("http://example.com")), bare(404), "{path}");
        assert_eq!(
            send("OPTIONS", path, Some(ORIGIN)),
            Seen { allow_origin: Some(ORIGIN.to_string()), ..bare(404) },
            "{path}"
        );
    }
}

#[test]
fn other_methods_are_not_allowed_on_a_known_path() {
    for method in ["POST", "PUT", "DELETE", "PATCH", "TRACE", "CONNECT", "BREW", "get"] {
        for path in KNOWN {
            assert_eq!(send(method, path, None), bare(405), "{method} {path}");
        }
    }
}

#[test]
fn head_is_answered_without_the_body() {
    let seen = send("HEAD", "/", None);
    assert_eq!(
        seen,
        Seen { content_type: Some("text/html; charset=utf-8".to_string()), ..bare(200) }
    );
    assert_eq!(send("HEAD", "/link/wiki", None), send("GET", "/link/wiki", None));
}

#[test]
fn preflight_from_the_allowed_origin_is_granted() {
    for path in KNOWN {
        let seen = send("OPTIONS", path, Some(ORIGIN));
        assert_eq!(
            seen,
            Seen {
                allow_origin: Some(ORIGIN.to_string()),
                allow_methods: vec!["GET".to_string(), "POST".to_string(), "PUT".to_string()],
                allow_headers: vec!["authorization".to_string()],
                ..bare(200)
            },
            "{path}"
        );
    }
}

#[test]
fn preflight_from_another_origin_gets_no_origin_back() {
    let froms = [
        Some("http://192.168.178.59"),
        Some("https://192.168.178.58"),
        Some("http://192.168.178.58:80"),
        Some("http://example.com"),
        None,
    ];
    for path in KNOWN {
        for from in froms {
            let seen = send("OPTIONS", path, from);
            assert_eq!(seen.status, 200, "{path} {from:?}");
            assert_eq!(seen.allow_origin, None, "{path} {from:?}");
            assert_eq!(seen.allow_methods, vec!["GET", "POST", "PUT"]);
            assert_eq!(seen.allow_headers, vec!["authorization"]);
        }
    }
}

#[test]
fn allowed_origin_is_named_back_on_every_path() {
    for method in METHODS {
        for path in KNOWN.iter().chain(UNKNOWN.iter()) {
            let seen = send(method, path, Some(ORIGIN));
            assert_eq!(seen.allow_origin.as_deref(), Some(ORIGIN), "{method} {path}");
        }
    }
}

#[test]
fn other_origin_is_named_back_on_no_path() {
    for method in METHODS {
        for path in KNOWN.iter().chain(UNKNOWN.iter()) {
            for from in [Some("http://example.com"), Some("http://192.168.178.58/"), None] {
                let seen = send(method, path, from);
                assert_eq!(seen.allow_origin, None, "{method} {path} {from:?}");
            }
        }
    }
}

#[test]
fn origin_that_is_no_text_is_not_named_back() {
    let runtime = tokio::runtime::Builder::new_current_thread().enable_all().build().unwrap();
    for path in ["/", "/nope"] {
        let request = axum::http::Request::builder()
            .method("GET")
            .uri(path)
            .header("origin", &b"http://b\xfccher.example"[..])
            .body(Body::empty())
            .unwrap();
        let response = runtime.block_on(configure_routes(origins()).oneshot(request)).unwrap();
        assert!(response.headers().get("access-control-allow-origin").is_none(), "{path}");
    }
}

#[test]
fn lists_are_sent_to_preflights_on_known_paths_alone() {
    for method in METHODS {
        for path in KNOWN.iter().chain(UNKNOWN.iter()) {
            let seen = send(method, path, Some(ORIGIN));
            let preflight = method == "OPTIONS" && KNOWN.contains(path);
            assert_eq!(!seen.allow_methods.is_empty(), preflight, "{method} {path}");
            assert_eq!(!seen.allow_headers.is_empty(), preflight, "{method} {path}");
        }
    }
}

#[test]
fn router_allows_each_of_several_origins() {
    let list = vec!["https://a.example".to_string(), "https://b.example".to_string()];
    let allowed = AllowedOrigins::from_list(list).unwrap();
    let runtime = tokio::runtime::Builder::new_current_thread().enable_all().build().unwrap();
    for (origin, back) in [
        ("https://a.example", Some("https://a.example")),
        ("https://b.example", Some("https://b.example")),
        ("https://c.example", None),
        (ORIGIN, None),
    ] {
        for (method, path) in [("OPTIONS", "/"), ("GET", "/link/wiki"), ("GET", "/nope")] {
            let router = configure_routes(allowed.clone());
            let seen = runtime.block_on(ask(router, method, path, Some(origin)));
            assert_eq!(seen.allow_origin.as_deref(), back, "{origin} {method} {path}");
        }
    }
}

#[test]
fn router_without_origins_names_none_back() {
    let runtime = tokio::runtime::Builder::new_current_thread().enable_all().build().unwrap();
    let router = configure_routes(AllowedOrigins::new());
    let seen = runtime.block_on(ask(router, "OPTIONS", "/", Some(ORIGIN)));
    assert_eq!(seen.status, 200);
    assert_eq!(seen.allow_origin, None);
    assert_eq!(seen.allow_methods, vec!["GET", "POST", "PUT"]);
    let router = configure_routes(AllowedOrigins::new());
    assert_eq!(runtime.block_on(ask(router, "GET", "/nope", Some(ORIGIN))), bare(404));
}

#[test]
fn hundred_requests_at_once_get_the_same_page() {
    let runtime =
        tokio::runtime::Builder::new_multi_thread().worker_threads(4).enable_all().build().unwrap();
    let router = configure_routes(origins());
    let answers = runtime.block_on(async move {
        let mut tasks = Vec::new();
        for _ in 0..100 {
            let router = router.clone();
            tasks.push(tokio::spawn(async move { ask(router, "GET", "/", None).await }));
        }
        let mut answers = Vec::new();
        for task in tasks {
            answers.push(task.await.unwrap());
        }
        answers
    });
    assert_eq!(answers.len(), 100);
    for answer in &answers {
        assert_eq!(answer.status, 200);
        assert_eq!(answer.body, INDEX_HTML);
        assert_eq!(answer, &answers[0]);
    }
}

#[test]
fn timeout_arms_a_timer_for_each_routed_request() {
    // A runtime without timers: the timeout layer cannot start its clock.
    let runtime = tokio::runtime::Builder::new_current_thread().build().unwrap();
    let router = configure_routes(origins());
    let joined = runtime
        .block_on(async move { tokio::spawn(ask(router, "GET", "/", None)).await });
    assert!(joined.unwrap_err().is_panic());
}

#[test]
fn timeout_arms_a_timer_where_no_route_matches() {
    let runtime = tokio::runtime::Builder::new_current_thread().build().unwrap();
    let router = configure_routes(origins());
    let joined = runtime
        .block_on(async move { tokio::spawn(ask(router, "OPTIONS", "/nope", None)).await });
    assert!(joined.unwrap_err().is_panic());
}

#[test]
fn preflight_is_answered_outside_the_timeout() {
    // The cross-origin layer is around the timeout, so a preflight needs no clock.
    let runtime = tokio::runtime::Builder::new_current_thread().build().unwrap();
    let router = configure_routes(origins());
    let seen = runtime.block_on(ask(router, "OPTIONS", "/", Some(ORIGIN)));
    assert_eq!(seen.status, 200);
    assert_eq!(seen.allow_origin.as_deref(), Some(ORIGIN));
}

struct Sink(Arc<Mutex<Vec<u8>>>);

impl Write for Sink {
    fn write(&mut self, bytes: &[u8]) -> std::io::Result<usize> {
        self.0.lock().unwrap().extend_from_slice(bytes);
        Ok(bytes.len())
    }

    fn flush(&mut self) -> std::io::Result<()> {
        Ok(())
    }
}

fn traced(method: &str, path: &str) -> (Seen, String) {
    let log = Arc::new(Mutex::new(Vec::new()));
    let sink = log.clone();
    let subscriber = tracing_subscriber::fmt()
        .with_max_level(tracing::Level::DEBUG)
        .with_ansi(false)
        .with_writer(move || Sink(sink.clone()))
        .finish();
    let seen = tracing::subscriber::with_default(subscriber, || send(method, path, None));
    let log = String::from_utf8(log.lock().unwrap().clone()).unwrap();
    (seen, log)
}

#[test]
fn tracing_records_each_request() {
    let (seen, log) = traced("GET", "/link/wiki");
    assert_eq!(seen.status, 301);
    assert!(log.contains("/link/wiki"), "{log}");
    assert!(log.contains("finished processing request"), "{log}");
    assert!(log.contains("status=301"), "{log}");
}

#[test]
fn tracing_records_what_matches_no_route() {
    let (seen, log) = traced("OPTIONS", "/nope");
    assert_eq!(seen.status, 404);
    assert!(log.contains("/nope"), "{log}");
    assert!(log.contains("finished processing request"), "{log}");
    assert!(log.contains("status=404"), "{log}");
}
