use news_gateway::errors::AppError;
use news_gateway::errors::ErrorBody;
use news_gateway::errors::ErrorDetail;
use news_gateway::response::Header;
use news_gateway::response::HttpReply;

fn reply(status: u16, headers: Vec<Header>, message: &str) -> HttpReply<ErrorBody> {
    HttpReply {
        status,
        headers,
        body: ErrorBody {
            success: false,
            error: ErrorDetail { code: status, message: message.to_string() },
        },
    }
}

fn header(name: &str, value: &str) -> Header {
    Header { name: name.to_string(), value: value.to_string() }
}

fn limit_error(limit: u64) -> AppError {
    AppError::RateLimitExceeded {
        tier: "basic".to_string(),
        limit,
        reset_at: "2024-03-01T10:00:00Z".to_string(),
    }
}

#[test]
fn one_line_texts() {
    assert_eq!(AppError::NotFound("x".to_string()).to_text(), "Not found: x");
    assert_eq!(AppError::Elasticsearch("down".to_string()).to_text(), "Elasticsearch error: down");
    assert_eq!(limit_error(5).to_text(), "Rate limit exceeded for basic tier (5/hour)");
    assert_eq!(AppError::Unauthorized("no".to_string()).to_text(), "Unauthorized: no");
    assert_eq!(AppError::Internal("oops".to_string()).to_text(), "Internal error: oops");
}

#[test]
fn not_found_answers_404() {
    let e = AppError::NotFound("Article 'a' not found".to_string());
    assert_eq!(e.status(), 404);
    assert_eq!(e.to_response(), reply(404, vec![], "Article 'a' not found"));
}

#[test]
fn backend_failure_answers_500_behind_a_general_message() {
    let e = AppError::Elasticsearch("Request failed: timeout".to_string());
    assert_eq!(e.status(), 500);
    assert_eq!(e.to_response(), reply(500, vec![], "Service temporarily unavailable"));
    assert_eq!(e.to_text(), "Elasticsearch error: Request failed: timeout");
}

#[test]
fn what_the_search_engine_said_is_kept_from_the_caller() {
    for said in ["index_not_found_exception at node es-7", "", "{\"reason\":\"x\"}"] {
        let e = AppError::Elasticsearch(said.to_string());
        assert_eq!(e.message(), "Service temporarily unavailable");
        assert_eq!(e.to_response().body.error.message, "Service temporarily unavailable");
    }
}

#[test]
fn a_failure_without_a_text_is_told_by_its_kind() {
    assert_eq!(AppError::NotFound(String::new()).message(), "Not found");
    assert_eq!(AppError::Unauthorized(String::new()).message(), "Forbidden");
    assert_eq!(AppError::Internal(String::new()).message(), "Internal error");
    assert_eq!(AppError::NotFound("x".to_string()).message(), "x");
    assert_eq!(AppError::Unauthorized("y".to_string()).message(), "y");
}

#[test]
fn used_up_quota_answers_429_with_the_rate_status() {
    let e = limit_error(5);
    assert_eq!(e.status(), 429);
    assert_eq!(
        e.to_response(),
        reply(
            429,
            vec![
                header("X-RateLimit-Limit", "5"),
                header("X-RateLimit-Remaining", "0"),
                header("X-RateLimit-Reset", "2024-03-01T10:00:00Z"),
                header("X-Subscription-Tier", "basic"),
            ],
            "Rate limit exceeded. Your basic plan allows 5 requests per hour. Resets at 2024-03-01T10:00:00Z. Upgrade your plan for higher limits."
        )
    );
}

#[test]
fn quota_is_written_in_decimal() {
    for (limit, written) in [
        (0u64, "0"),
        (9, "9"),
        (10, "10"),
        (10000, "10000"),
        (1_234_567_890, "1234567890"),
        (u64::MAX, "18446744073709551615"),
    ] {
        let r = limit_error(limit).to_response();
        assert_eq!(r.headers[0].value, written);
        assert_eq!(limit_error(limit).to_text(), format!("Rate limit exceeded for basic tier ({}/hour)", written));
    }
}

#[test]
fn unauthorized_answers_403() {
    let e = AppError::Unauthorized("Forbidden".to_string());
    assert_eq!(e.status(), 403);
    assert_eq!(e.to_response(), reply(403, vec![], "Forbidden"));
}

#[test]
fn internal_answers_500() {
    let e = AppError::Internal("clock out of range".to_string());
    assert_eq!(e.status(), 500);
    assert_eq!(e.message(), "clock out of range");
    assert_eq!(e.to_response(), reply(500, vec![], "clock out of range"));
}
