use news_gateway::response::put_header;
use news_gateway::response::ApiResponse;
use news_gateway::response::Header;
use news_gateway::response::HttpReply;
use news_gateway::response::PaginationMeta;
use news_gateway::response::ResponseBuilder;

fn header(name: &str, value: &str) -> Header {
    Header { name: name.to_string(), value: value.to_string() }
}

#[test]
fn ok_carries_the_data() {
    assert_eq!(
        ResponseBuilder::ok(vec![1u8, 2, 3]),
        HttpReply {
            status: 200,
            headers: vec![],
            body: ApiResponse { success: true, data: vec![1u8, 2, 3], meta: None },
        }
    );
}

#[test]
fn ok_paged_says_where_the_page_stands() {
    assert_eq!(
        ResponseBuilder::ok_paged("page", 2, 10, 95),
        HttpReply {
            status: 200,
            headers: vec![],
            body: ApiResponse {
                success: true,
                data: "page",
                meta: Some(PaginationMeta { page: 2, size: 10, total: 95, total_pages: 10 }),
            },
        }
    );
}

#[test]
fn pages_are_counted_rounding_up() {
    for (total, size, pages) in [
        (0u64, 10u64, 0u64),
        (0, 0, 0),
        (5, 0, 0),
        (u64::MAX, 0, 0),
        (1, 10, 1),
        (9, 10, 1),
        (10, 10, 1),
        (11, 10, 2),
        (100, 25, 4),
        (101, 25, 5),
        (7, 1, 7),
        (u64::MAX, 1, u64::MAX),
        (u64::MAX, u64::MAX, 1),
        (u64::MAX, 2, 9_223_372_036_854_775_808),
        (u64::MAX - 1, u64::MAX, 1),
    ] {
        let r = ResponseBuilder::ok_paged((), 1, size, total);
        assert_eq!(r.body.meta.unwrap().total_pages, pages, "{} at {}", total, size);
    }
}

#[test]
fn rate_headers_are_added() {
    let r = ResponseBuilder::with_rate_headers(
        ResponseBuilder::ok("data"),
        100,
        99,
        "2024-03-01T10:00:00Z",
        "pro",
    );
    assert_eq!(r.status, 200);
    assert_eq!(r.body, ApiResponse { success: true, data: "data", meta: None });
    assert_eq!(
        r.headers,
        vec![
            header("X-RateLimit-Limit", "100"),
            header("X-RateLimit-Remaining", "99"),
            header("X-RateLimit-Reset", "2024-03-01T10:00:00Z"),
            header("X-Subscription-Tier", "pro"),
        ]
    );
}

#[test]
fn rate_headers_take_the_place_of_older_ones() {
    let before = HttpReply {
        status: 201,
        headers: vec![
            header("X-RateLimit-Remaining", "7"),
            header("Cache-Control", "no-store"),
            header("X-Subscription-Tier", "basic"),
            header("X-RateLimit-Remaining", "8"),
        ],
        body: 5u8,
    };
    let r = ResponseBuilder::with_rate_headers(before, 10, 0, "soon", "mega");
    assert_eq!(r.status, 201);
    assert_eq!(r.body, 5);
    assert_eq!(
        r.headers,
        vec![
            header("Cache-Control", "no-store"),
            header("X-RateLimit-Limit", "10"),
            header("X-RateLimit-Remaining", "0"),
            header("X-RateLimit-Reset", "soon"),
            header("X-Subscription-Tier", "mega"),
        ]
    );
}

#[test]
fn put_header_sets_or_replaces() {
    assert_eq!(put_header(vec![], "A", "1".to_string()), vec![header("A", "1")]);
    assert_eq!(
        put_header(vec![header("A", "1"), header("B", "2")], "A", "3".to_string()),
        vec![header("B", "2"), header("A", "3")]
    );
    assert_eq!(
        put_header(vec![header("a", "1")], "A", "3".to_string()),
        vec![header("a", "1"), header("A", "3")]
    );
}
