//! The failures of the gateway and the answers they turn into.

use vstd::prelude::*;
use vstd::string::StrSliceExecFns;
use crate::response::Header;
use crate::response::header_views;
use crate::response::HeaderView;
use crate::response::HttpReply;
use crate::text::decimal;
use crate::text::decimal_text;
use crate::text::join2;

verus! {

/// Why a request could not be served.
#[derive(Debug, Clone, PartialEq)]
pub enum AppError {
    /// The one resource asked for does not exist.
    NotFound(String),
    /// The search engine could not be reached, or answered with a failure.
    Elasticsearch(String),
    /// The caller's quota for the current hour is used up.
    RateLimitExceeded { tier: String, limit: u64, reset_at: String },
    /// The request did not come through the trusted proxy.
    Unauthorized(String),
    /// Anything else.
    Internal(String),
}

/// Model of [`AppError`].
pub ghost enum ErrorView {
    NotFound(Seq<char>),
    Elasticsearch(Seq<char>),
    RateLimitExceeded { tier: Seq<char>, limit: u64, reset_at: Seq<char> },
    Unauthorized(Seq<char>),
    Internal(Seq<char>),
}

impl View for AppError {
    type V = ErrorView;

    open spec fn view(&self) -> ErrorView {
        match self {
            AppError::NotFound(m) => ErrorView::NotFound(m@),
            AppError::Elasticsearch(m) => ErrorView::Elasticsearch(m@),
            AppError::RateLimitExceeded { tier, limit, reset_at } => ErrorView::RateLimitExceeded {
                tier: tier@,
                limit: *limit,
                reset_at: reset_at@,
            },
            AppError::Unauthorized(m) => ErrorView::Unauthorized(m@),
            AppError::Internal(m) => ErrorView::Internal(m@),
        }
    }
}

/// What an answer says of a failure.
#[derive(Debug, Clone, PartialEq)]
pub struct ErrorDetail {
    pub code: u16,
    pub message: String,
}

/// The body of an answer to a request that failed.
#[derive(Debug, Clone, PartialEq)]
pub struct ErrorBody {
    pub success: bool,
    pub error: ErrorDetail,
}

/// A failure in one line, for a log or a console.
pub open spec fn error_text(e: ErrorView) -> Seq<char> {
    match e {
        ErrorView::NotFound(m) => "Not found: "@ + m,
        ErrorView::Elasticsearch(m) => "Elasticsearch error: "@ + m,
        ErrorView::RateLimitExceeded { tier, limit, reset_at } => "Rate limit exceeded for "@
            + tier + " tier ("@ + decimal(limit as nat) + "/hour)"@,
        ErrorView::Unauthorized(m) => "Unauthorized: "@ + m,
        ErrorView::Internal(m) => "Internal error: "@ + m,
    }
}

/// The status code that answers a failure: 404 for what does not exist, 429
/// for a used-up quota, 403 for a caller that is not let in, 500 for the
/// rest.
pub open spec fn error_status(e: ErrorView) -> u16 {
    match e {
        ErrorView::NotFound(_) => 404,
        ErrorView::Elasticsearch(_) => 500,
        ErrorView::RateLimitExceeded { .. } => 429,
        ErrorView::Unauthorized(_) => 403,
        ErrorView::Internal(_) => 500,
    }
}

/// What a caller is told of any failure of the search engine. What the
/// search engine itself said is kept from callers.
pub open spec fn unavailable() -> Seq<char> {
    "Service temporarily unavailable"@
}

/// The text `m` of a failure, or `otherwise` where the failure has none.
pub open spec fn told(m: Seq<char>, otherwise: Seq<char>) -> Seq<char> {
    if m.len() > 0 {
        m
    } else {
        otherwise
    }
}

/// What the caller is told of a failure: the failure's own text, but for a
/// failure of the search engine, of which every caller is told the same, and
/// for a used-up quota, which is told with the plan, the quota and the time
/// of reset. A failure without a text is told by its kind.
pub open spec fn error_message(e: ErrorView) -> Seq<char> {
    match e {
        ErrorView::NotFound(m) => told(m, "Not found"@),
        ErrorView::Elasticsearch(_) => unavailable(),
        ErrorView::RateLimitExceeded { tier, limit, reset_at } => "Rate limit exceeded. Your "@
            + tier + " plan allows "@ + decimal(limit as nat) + " requests per hour. Resets at "@
            + reset_at + ". Upgrade your plan for higher limits."@,
        ErrorView::Unauthorized(m) => told(m, "Forbidden"@),
        ErrorView::Internal(m) => told(m, "Internal error"@),
    }
}

/// Every failure tells the caller something, and a failure of the search
/// engine tells nothing of what the search engine said.
pub proof fn law_failures_are_told(e: ErrorView)
    ensures
        error_message(e).len() > 0,
        e is Elasticsearch ==> error_message(e) == unavailable(),
{
    reveal_strlit("Service temporarily unavailable");
    reveal_strlit("Not found");
    reveal_strlit("Forbidden");
    reveal_strlit("Internal error");
    reveal_strlit("Rate limit exceeded. Your ");
}

/// The headers that go with a failure: for a used-up quota the quota, that
/// nothing is left of it, when it is whole again, and the tier it is the
/// quota of; none for the rest.
pub open spec fn error_headers(e: ErrorView) -> Seq<HeaderView> {
    match e {
        ErrorView::RateLimitExceeded { tier, limit, reset_at } => seq![
            HeaderView { name: "X-RateLimit-Limit"@, value: decimal(limit as nat) },
            HeaderView { name: "X-RateLimit-Remaining"@, value: "0"@ },
            HeaderView { name: "X-RateLimit-Reset"@, value: reset_at },
            HeaderView { name: "X-Subscription-Tier"@, value: tier },
        ],
        _ => Seq::empty(),
    }
}

/// The answer to a used-up quota says that nothing is left of it.
pub proof fn law_refusal_reports_nothing_left(tier: Seq<char>, limit: u64, reset_at: Seq<char>)
    ensures
        error_status(ErrorView::RateLimitExceeded { tier, limit, reset_at }) == 429,
        error_headers(ErrorView::RateLimitExceeded { tier, limit, reset_at })[1] == (HeaderView {
            name: "X-RateLimit-Remaining"@,
            value: "0"@,
        }),
        "0"@ == decimal(0),
{
    reveal_strlit("0");
    assert("0"@ =~= decimal(0));
}

/// Whether `reply` is the answer that the failure `e` turns into: the status
/// and headers of the failure, and a body that reports no success, repeats
/// the status and tells the caller what happened.
pub open spec fn answers(reply: HttpReply<ErrorBody>, e: ErrorView) -> bool {
    &&& reply.status == error_status(e)
    &&& header_views(reply.headers@) == error_headers(e)
    &&& !reply.body.success
    &&& reply.body.error.code == error_status(e)
    &&& reply.body.error.message@ == error_message(e)
}

fn text_or(m: &String, otherwise: &str) -> (r: String)
    ensures
        r@ == told(m@, otherwise@),
{
    if m.as_str().unicode_len() > 0 {
        m.clone()
    } else {
        otherwise.to_owned()
    }
}

impl AppError {
    /// The failure in one line.
    pub fn to_text(&self) -> (r: String)
        ensures
            r@ == error_text(self@),
    {
        match self {
            AppError::NotFound(m) => join2("Not found: ", m.as_str()),
            AppError::Elasticsearch(m) => join2("Elasticsearch error: ", m.as_str()),
            AppError::RateLimitExceeded { tier, limit, reset_at } => {
                let mut r = join2("Rate limit exceeded for ", tier.as_str());
                r.append(" tier (");
                r.append(decimal_text(*limit).as_str());
                r.append("/hour)");
                r
            },
            AppError::Unauthorized(m) => join2("Unauthorized: ", m.as_str()),
            AppError::Internal(m) => join2("Internal error: ", m.as_str()),
        }
    }

    /// What the caller is told of the failure.
    pub fn message(&self) -> (r: String)
        ensures
            r@ == error_message(self@),
    {
        match self {
            AppError::NotFound(m) => text_or(m, "Not found"),
            AppError::Elasticsearch(_) => "Service temporarily unavailable".to_owned(),
            AppError::RateLimitExceeded { tier, limit, reset_at } => {
                let mut r = join2("Rate limit exceeded. Your ", tier.as_str());
                r.append(" plan allows ");
                r.append(decimal_text(*limit).as_str());
                r.append(" requests per hour. Resets at ");
                r.append(reset_at.as_str());
                r.append(". Upgrade your plan for higher limits.");
                r
            },
            AppError::Unauthorized(m) => text_or(m, "Forbidden"),
            AppError::Internal(m) => text_or(m, "Internal error"),
        }
    }

    /// The status code that answers the failure.
    pub fn status(&self) -> (r: u16)
        ensures
            r == error_status(self@),
    {
        match self {
            AppError::NotFound(_) => 404,
            AppError::Elasticsearch(_) => 500,
            AppError::RateLimitExceeded { .. } => 429,
            AppError::Unauthorized(_) => 403,
            AppError::Internal(_) => 500,
        }
    }

    /// The answer that the failure turns into. Its body never reports
    /// success and repeats the status code. A used-up quota is the one
    /// failure whose answer says where the quota stands, with nothing left.
    pub fn to_response(&self) -> (r: HttpReply<ErrorBody>)
        ensures
            answers(r, self@),
    {
        let mut headers: Vec<Header> = Vec::new();
        match self {
            AppError::RateLimitExceeded { tier, limit, reset_at } => {
                headers.push(
                    Header { name: "X-RateLimit-Limit".to_owned(), value: decimal_text(*limit) },
                );
                headers.push(
                    Header { name: "X-RateLimit-Remaining".to_owned(), value: "0".to_owned() },
                );
                headers.push(
                    Header { name: "X-RateLimit-Reset".to_owned(), value: reset_at.clone() },
                );
                headers.push(
                    Header { name: "X-Subscription-Tier".to_owned(), value: tier.clone() },
                );
            },
            _ => {},
        }
        proof {
            assert(header_views(headers@) =~= error_headers(self@));
        }
        let code = self.status();
        HttpReply {
            status: code,
            headers: headers,
            body: ErrorBody {
                success: false,
                error: ErrorDetail { code: code, message: self.message() },
            },
        }
    }
}

} // verus!
