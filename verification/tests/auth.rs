use news_gateway::auth::RapidApiAuth;
use news_gateway::auth::RapidApiAuthMiddleware;
use news_gateway::errors::ErrorBody;
use news_gateway::errors::ErrorDetail;
use news_gateway::response::HttpReply;

fn guard(secret: &str) -> RapidApiAuthMiddleware<u8> {
    RapidApiAuth { proxy_secret: secret.to_string() }.new_transform(7u8)
}

fn forbidden() -> Option<HttpReply<ErrorBody>> {
    Some(HttpReply {
        status: 403,
        headers: vec![],
        body: ErrorBody {
            success: false,
            error: ErrorDetail {
                code: 403,
                message: "Forbidden: Invalid API proxy secret".to_string(),
            },
        },
    })
}

#[test]
fn guard_keeps_the_service() {
    assert_eq!(*guard("s").service(), 7);
}

#[test]
fn right_secret_is_let_in() {
    assert_eq!(guard("s3cret").screen("/api/news", Some("s3cret")), None);
}

#[test]
fn wrong_or_missing_secret_is_forbidden() {
    assert_eq!(guard("s3cret").screen("/api/news", Some("wrong")), forbidden());
    assert_eq!(guard("s3cret").screen("/api/news", Some("S3CRET")), forbidden());
    assert_eq!(guard("s3cret").screen("/api/news", Some("")), forbidden());
    assert_eq!(guard("s3cret").screen("/api/news", None), forbidden());
    assert_eq!(guard("s3cret").screen("/ping", None), forbidden());
    assert_eq!(guard("s3cret").screen("/api/health/", None), forbidden());
}

#[test]
fn health_check_is_always_let_in() {
    assert_eq!(guard("s3cret").screen("/api/health", None), None);
    assert_eq!(guard("s3cret").screen("/api/health", Some("wrong")), None);
}

#[test]
fn without_a_real_secret_nothing_is_checked() {
    assert_eq!(guard("").screen("/api/news", None), None);
    assert_eq!(guard("").screen("/api/news", Some("anything")), None);
    assert_eq!(guard("your-rapidapi-proxy-secret-here").screen("/api/news", None), None);
    assert_eq!(guard("your-rapidapi-proxy-secret-here").screen("/api/news", Some("x")), None);
}
