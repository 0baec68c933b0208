//! The cross-origin policy: which origins may call the site, with which
//! methods and request headers, and what a request is granted under it.

use vstd::prelude::*;

use crate::http::{AUTHORIZATION, GET, POST, PUT};
use crate::origins::{echo, is_origin, AllowedOrigins};
use crate::text::{lower_token, texts, token};

verus! {

/// A cross-origin policy.
#[derive(Debug)]
pub struct CorsPolicy {
    origins: AllowedOrigins,
    methods: Vec<String>,
    headers: Vec<String>,
}

/// A policy as contracts speak of it.
pub struct CorsPolicyView {
    pub origins: Seq<Seq<char>>,
    pub methods: Seq<Seq<char>>,
    pub headers: Seq<Seq<char>>,
}

impl View for CorsPolicy {
    type V = CorsPolicyView;

    closed spec fn view(&self) -> CorsPolicyView {
        CorsPolicyView {
            origins: self.origins@,
            methods: texts(self.methods@),
            headers: texts(self.headers@),
        }
    }
}

/// The cross-origin headers of one answer.
pub struct Grant {
    /// `Access-Control-Allow-Origin`, where it is sent.
    pub allow_origin: Option<Seq<char>>,
    /// The methods under `Access-Control-Allow-Methods`; none where the
    /// header is not sent.
    pub allow_methods: Seq<Seq<char>>,
    /// The names under `Access-Control-Allow-Headers`; none where the header
    /// is not sent.
    pub allow_headers: Seq<Seq<char>>,
}

/// The grant that holds no header.
pub open spec fn no_grant() -> Grant {
    Grant { allow_origin: None, allow_methods: Seq::empty(), allow_headers: Seq::empty() }
}

/// The policy of the site over the given origins: `GET`, `POST` and `PUT`,
/// and the `Authorization` header.
pub open spec fn site_policy(origins: Seq<Seq<char>>) -> CorsPolicyView {
    CorsPolicyView { origins, methods: seq![GET@, POST@, PUT@], headers: seq![AUTHORIZATION@] }
}

impl CorsPolicyView {
    /// A policy that a cross-origin layer can be made of.
    pub open spec fn fit(self) -> bool {
        &&& forall|i: int| 0 <= i < self.origins.len() ==> is_origin(#[trigger] self.origins[i])
        &&& forall|i: int| 0 <= i < self.methods.len() ==> token(#[trigger] self.methods[i])
        &&& forall|i: int| 0 <= i < self.headers.len() ==> lower_token(#[trigger] self.headers[i])
    }

    /// What a request is granted: its origin, if allowed, and on a preflight
    /// the allowed methods and request headers.
    pub open spec fn grant(self, preflight: bool, origin: Option<Seq<char>>) -> Grant {
        Grant {
            allow_origin: echo(self.origins, origin),
            allow_methods: if preflight {
                self.methods
            } else {
                Seq::empty()
            },
            allow_headers: if preflight {
                self.headers
            } else {
                Seq::empty()
            },
        }
    }
}

/// The policy of the site is fit for a layer where its origins are.
pub proof fn site_policy_is_fit(origins: Seq<Seq<char>>)
    requires
        forall|i: int| 0 <= i < origins.len() ==> is_origin(#[trigger] origins[i]),
    ensures
        site_policy(origins).fit(),
{
    reveal_strlit("GET");
    reveal_strlit("POST");
    reveal_strlit("PUT");
    reveal_strlit("authorization");
}

impl CorsPolicy {
    /// The policy of the site over `origins`.
    pub fn site(origins: AllowedOrigins) -> (policy: CorsPolicy)
        ensures
            policy@ == site_policy(origins@),
    {
        let mut methods: Vec<String> = Vec::new();
        methods.push(GET.to_owned());
        methods.push(POST.to_owned());
        methods.push(PUT.to_owned());
        let mut headers: Vec<String> = Vec::new();
        headers.push(AUTHORIZATION.to_owned());
        proof {
            assert(texts(methods@) =~= seq![GET@, POST@, PUT@]);
            assert(texts(headers@) =~= seq![AUTHORIZATION@]);
        }
        CorsPolicy { origins, methods, headers }
    }

    /// The allowed origins, each of which names one origin.
    pub fn origins(&self) -> (list: &Vec<String>)
        ensures
            texts(list@) == self@.origins,
            forall|i: int|
                0 <= i < self@.origins.len() ==> is_origin(#[trigger] self@.origins[i]),
    {
        self.origins.entries()
    }

    /// The allowed methods.
    pub fn methods(&self) -> (list: &Vec<String>)
        ensures
            texts(list@) == self@.methods,
    {
        &self.methods
    }

    /// The request headers that are allowed.
    pub fn headers(&self) -> (list: &Vec<String>)
        ensures
            texts(list@) == self@.headers,
    {
        &self.headers
    }
}

} // verus!
