//! Letting in only what comes through the trusted proxy.

use vstd::prelude::*;
use crate::errors::answers;
use crate::errors::AppError;
use crate::errors::ErrorBody;
use crate::errors::ErrorView;
use crate::response::HttpReply;
use crate::text::opt_chars;
use crate::text::text_eq;

verus! {

/// The proxy secret that stands in a sample configuration. A service
/// configured with it checks nothing.
pub open spec fn placeholder_secret() -> Seq<char> {
    "your-rapidapi-proxy-secret-here"@
}

/// Whether a service with the secret `secret` checks no request: it has no
/// secret, or only the placeholder of one.
pub open spec fn unguarded(secret: Seq<char>) -> bool {
    secret.len() == 0 || secret == placeholder_secret()
}

/// Whether a request for `path` that carries the proxy secret `header` is
/// let in: the health check always is, everything is where nothing is
/// checked, and otherwise what carries the right secret. A request without
/// the header counts as carrying the empty secret.
pub open spec fn lets_in(secret: Seq<char>, path: Seq<char>, header: Option<Seq<char>>) -> bool {
    ||| path == "/api/health"@
    ||| unguarded(secret)
    ||| secret == match header {
        Some(h) => h,
        None => Seq::empty(),
    }
}

/// The failure that answers a request that is not let in.
pub open spec fn forbidden() -> ErrorView {
    ErrorView::Unauthorized("Forbidden: Invalid API proxy secret"@)
}

/// Makes the guard that stands before a service.
#[derive(Debug, Clone, PartialEq)]
pub struct RapidApiAuth {
    pub proxy_secret: String,
}

/// The guard before the service `service`.
#[derive(Debug, Clone, PartialEq)]
pub struct RapidApiAuthMiddleware<S> {
    service: S,
    proxy_secret: String,
}

impl RapidApiAuth {
    /// The guard before `service`, with this secret.
    pub fn new_transform<S>(&self, service: S) -> (r: RapidApiAuthMiddleware<S>)
        ensures
            r.secret() == self.proxy_secret@,
            r.inner() == service,
    {
        RapidApiAuthMiddleware { service: service, proxy_secret: self.proxy_secret.clone() }
    }
}

impl<S> RapidApiAuthMiddleware<S> {
    /// The secret that a request has to carry.
    pub closed spec fn secret(&self) -> Seq<char> {
        self.proxy_secret@
    }

    /// The service behind the guard.
    pub closed spec fn inner(&self) -> S {
        self.service
    }

    /// The service behind the guard.
    pub fn service(&self) -> (r: &S)
        ensures
            *r == self.inner(),
    {
        &self.service
    }

    /// Decides on a request for `path` that carries the proxy secret
    /// `header`. A request that is let in gives nothing and goes on to the
    /// service; any other is answered here, as forbidden.
    pub fn screen(&self, path: &str, header: Option<&str>) -> (r: Option<HttpReply<ErrorBody>>)
        ensures
            match r {
                None => lets_in(self.secret(), path@, opt_chars(header)),
                Some(reply) => {
                    &&& !lets_in(self.secret(), path@, opt_chars(header))
                    &&& answers(reply, forbidden())
                },
            },
    {
        proof {
            reveal_strlit("");
        }
        let secret = self.proxy_secret.as_str();
        let is_dev = text_eq(secret, "") || text_eq(secret, "your-rapidapi-proxy-secret-here");
        proof {
            if secret@.len() == 0 {
                assert(secret@ =~= ""@);
            }
        }
        if text_eq(path, "/api/health") || is_dev {
            return None;
        }
        let carried = match header {
            Some(h) => h,
            None => "",
        };
        proof {
            assert(""@ =~= Seq::<char>::empty());
        }
        if !text_eq(carried, secret) {
            let e = AppError::Unauthorized("Forbidden: Invalid API proxy secret".to_owned());
            return Some(e.to_response());
        }
        None
    }
}

} // verus!
