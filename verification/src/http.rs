//! The words of HTTP that the site uses.

use vstd::prelude::*;

verus! {

pub const GET: &'static str = "GET";

pub const HEAD: &'static str = "HEAD";

pub const POST: &'static str = "POST";

pub const PUT: &'static str = "PUT";

/// The method of a preflight request.
pub const OPTIONS: &'static str = "OPTIONS";

/// The name of the `Authorization` header, as header names are kept.
pub const AUTHORIZATION: &'static str = "authorization";

/// The content type of an HTML page.
pub const HTML: &'static str = "text/html; charset=utf-8";

pub const OK: u16 = 200;

pub const MOVED_PERMANENTLY: u16 = 301;

pub const NOT_FOUND: u16 = 404;

pub const METHOD_NOT_ALLOWED: u16 = 405;

pub const REQUEST_TIMEOUT: u16 = 408;

} // verus!
