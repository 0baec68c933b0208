//! A small web front: a landing page and two permanent redirects, served
//! behind a request timeout, a cross-origin policy and request tracing.
//!
//! [`routes::configure_routes`] builds the router. [`site`] says what that
//! router answers, as a function from a request to its answer, and proves
//! what holds of every request. The pieces below them: [`reply`] for what a
//! handler answers, [`origins`] and [`cors`] for the cross-origin policy,
//! [`text`] and [`http`] for the words and characters of HTTP.

pub mod http;
pub mod text;
pub mod reply;
pub mod origins;
pub mod cors;
pub mod routes;
pub mod site;
