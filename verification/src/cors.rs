//! The cross-origin policy of the gateway. It is permissive on purpose: what a
//! caller asks to be allowed is what the response allows, and credentials are
//! always permitted. No allow-list is consulted.

use crate::text::{copy_opt_text, opt_text};
use vstd::prelude::*;

verus! {

/// Which cross-origin headers a response carries.
#[derive(Clone, Copy, Debug, PartialEq, Eq, Structural)]
pub struct CorsPolicy {
    /// Whether `Access-Control-Allow-Credentials: true` is sent.
    pub allow_credentials: bool,
    /// Whether `Access-Control-Allow-Origin` repeats the request's `Origin`.
    pub mirror_origin: bool,
    /// Whether `Access-Control-Allow-Methods` repeats the request's
    /// `Access-Control-Request-Method`.
    pub mirror_methods: bool,
    /// Whether `Access-Control-Allow-Headers` repeats the request's
    /// `Access-Control-Request-Headers`.
    pub mirror_headers: bool,
}

/// The cross-origin headers of a request.
#[derive(Clone, Debug, PartialEq, Eq)]
pub struct CorsRequest {
    /// Value of `Origin`.
    pub origin: Option<String>,
    /// Value of `Access-Control-Request-Method`.
    pub request_method: Option<String>,
    /// Value of `Access-Control-Request-Headers`.
    pub request_headers: Option<String>,
}

/// The cross-origin headers of a response.
#[derive(Clone, Debug, PartialEq, Eq)]
pub struct CorsHeaders {
    /// Value of `Access-Control-Allow-Origin`.
    pub allow_origin: Option<String>,
    /// Value of `Access-Control-Allow-Methods`.
    pub allow_methods: Option<String>,
    /// Value of `Access-Control-Allow-Headers`.
    pub allow_headers: Option<String>,
    /// Whether `Access-Control-Allow-Credentials: true` is present.
    pub allow_credentials: bool,
}

/// The cross-origin headers of a request as plain mathematical values.
pub ghost struct CorsRequestView {
    pub origin: Option<Seq<char>>,
    pub request_method: Option<Seq<char>>,
    pub request_headers: Option<Seq<char>>,
}

/// The cross-origin headers of a response as plain mathematical values.
pub ghost struct CorsHeadersView {
    pub allow_origin: Option<Seq<char>>,
    pub allow_methods: Option<Seq<char>>,
    pub allow_headers: Option<Seq<char>>,
    pub allow_credentials: bool,
}

impl View for CorsRequest {
    type V = CorsRequestView;

    open spec fn view(&self) -> CorsRequestView {
        CorsRequestView {
            origin: opt_text(self.origin),
            request_method: opt_text(self.request_method),
            request_headers: opt_text(self.request_headers),
        }
    }
}

impl View for CorsHeaders {
    type V = CorsHeadersView;

    open spec fn view(&self) -> CorsHeadersView {
        CorsHeadersView {
            allow_origin: opt_text(self.allow_origin),
            allow_methods: opt_text(self.allow_methods),
            allow_headers: opt_text(self.allow_headers),
            allow_credentials: self.allow_credentials,
        }
    }
}

/// A header that repeats what the request asked for, where the policy says
/// so, and is absent otherwise.
pub open spec fn mirrored(mirror: bool, requested: Option<Seq<char>>) -> Option<Seq<char>> {
    if mirror {
        requested
    } else {
        None
    }
}

impl CorsPolicy {
    /// The policy that mirrors everything and permits credentials.
    pub open spec fn mirror_everything() -> CorsPolicy {
        CorsPolicy {
            allow_credentials: true,
            mirror_origin: true,
            mirror_methods: true,
            mirror_headers: true,
        }
    }

    /// The headers this policy gives the response to `request`.
    pub open spec fn answer(self, request: CorsRequestView) -> CorsHeadersView {
        CorsHeadersView {
            allow_origin: mirrored(self.mirror_origin, request.origin),
            allow_methods: mirrored(self.mirror_methods, request.request_method),
            allow_headers: mirrored(self.mirror_headers, request.request_headers),
            allow_credentials: self.allow_credentials,
        }
    }

    /// The policy of the gateway: origin, methods and headers are mirrored,
    /// and credentials are permitted.
    pub fn mirror_request() -> (policy: CorsPolicy)
        ensures
            policy == CorsPolicy::mirror_everything(),
    {
        CorsPolicy {
            allow_credentials: true,
            mirror_origin: true,
            mirror_methods: true,
            mirror_headers: true,
        }
    }

    /// The cross-origin headers of the response to `request` under this
    /// policy.
    pub fn response_headers(&self, request: &CorsRequest) -> (headers: CorsHeaders)
        ensures
            headers@ == self.answer(request@),
    {
        CorsHeaders {
            allow_origin: if self.mirror_origin {
                copy_opt_text(&request.origin)
            } else {
                None
            },
            allow_methods: if self.mirror_methods {
                copy_opt_text(&request.request_method)
            } else {
                None
            },
            allow_headers: if self.mirror_headers {
                copy_opt_text(&request.request_headers)
            } else {
                None
            },
            allow_credentials: self.allow_credentials,
        }
    }
}

/// Under the gateway's policy the response allows exactly what the request
/// asked for, whatever it asked for, and always permits credentials.
pub proof fn lemma_mirror_echoes_request(request: CorsRequestView)
    ensures
        CorsPolicy::mirror_everything().answer(request).allow_origin == request.origin,
        CorsPolicy::mirror_everything().answer(request).allow_methods == request.request_method,
        CorsPolicy::mirror_everything().answer(request).allow_headers == request.request_headers,
        CorsPolicy::mirror_everything().answer(request).allow_credentials,
{
}

} // verus!
