use news_gateway::clock::ClockReading;
use news_gateway::config::Config;
use news_gateway::config::Environment;
use news_gateway::errors::AppError;
use news_gateway::limiter::RateLimitEntry;
use news_gateway::limiter::RateLimiter;
use news_gateway::tier::SubscriptionTier;

fn config_with(basic: &str, pro: &str) -> Config {
    Config::from_env(Environment {
        es_host: None,
        es_username: None,
        es_password: None,
        es_index_pattern: None,
        port: None,
        rapidapi_proxy_secret: None,
        rate_limit_basic: Some(basic.to_string()),
        rate_limit_pro: Some(pro.to_string()),
        rate_limit_ultra: None,
        rate_limit_mega: None,
    })
}

fn clock(hour: u32, day: u32) -> ClockReading {
    ClockReading { hour, day, reset_at: format!("2024-03-01T{:02}:00:00Z", (hour + 1) % 24) }
}

fn refusal(tier: &str, limit: u64, reset_at: &str) -> AppError {
    AppError::RateLimitExceeded {
        tier: tier.to_string(),
        limit,
        reset_at: reset_at.to_string(),
    }
}

#[test]
fn quota_is_served_exactly_then_refused() {
    let tiers = [
        (SubscriptionTier::Basic, "basic", 5u64),
        (SubscriptionTier::Pro, "pro", 100),
        (SubscriptionTier::Ultra, "ultra", 1000),
        (SubscriptionTier::Mega, "mega", 10000),
    ];
    for (tier, name, quota) in tiers {
        let mut limiter = RateLimiter::new(config_with("5", "100"));
        let now = clock(9, 61);
        for n in 1..=quota {
            assert_eq!(limiter.check_at("alice", &tier, &now), Ok((quota, quota - n)));
        }
        let refused = limiter.check_at("alice", &tier, &now);
        assert_eq!(refused, Err(refusal(name, quota, "2024-03-01T10:00:00Z")));
        let reply = refused.unwrap_err().to_response();
        assert_eq!(reply.status, 429);
        assert_eq!(reply.headers[1].name, "X-RateLimit-Remaining");
        assert_eq!(reply.headers[1].value, "0");
    }
}

#[test]
fn refusals_repeat_and_count_nothing() {
    let mut limiter = RateLimiter::new(config_with("2", "100"));
    let now = clock(9, 61);
    assert_eq!(limiter.check_at("bob", &SubscriptionTier::Basic, &now), Ok((2, 1)));
    assert_eq!(limiter.check_at("bob", &SubscriptionTier::Basic, &now), Ok((2, 0)));
    let first = limiter.check_at("bob", &SubscriptionTier::Basic, &now);
    assert_eq!(first, Err(refusal("basic", 2, "2024-03-01T10:00:00Z")));
    for _ in 0..10 {
        assert_eq!(limiter.check_at("bob", &SubscriptionTier::Basic, &now), first);
    }
}

#[test]
fn refused_entry_is_left_as_it_was() {
    let mut entry = RateLimitEntry { count: 5, hour: 9, day: 61 };
    assert_eq!(entry.tally(9, 61, 5), None);
    assert_eq!(entry, RateLimitEntry { count: 5, hour: 9, day: 61 });
    assert_eq!(entry.tally(9, 61, 5), None);
    assert_eq!(entry, RateLimitEntry { count: 5, hour: 9, day: 61 });
    let mut over = RateLimitEntry { count: 9, hour: 9, day: 61 };
    assert_eq!(over.tally(9, 61, 5), None);
    assert_eq!(over.count, 9);
}

#[test]
fn tally_counts_up_and_tells_what_is_left() {
    let mut entry = RateLimitEntry { count: 0, hour: 9, day: 61 };
    assert_eq!(entry.tally(9, 61, 3), Some(2));
    assert_eq!(entry.tally(9, 61, 3), Some(1));
    assert_eq!(entry.tally(9, 61, 3), Some(0));
    assert_eq!(entry, RateLimitEntry { count: 3, hour: 9, day: 61 });
    assert_eq!(entry.tally(9, 61, 3), None);
}

#[test]
fn new_hour_resets_the_count_on_the_same_day() {
    let mut limiter = RateLimiter::new(config_with("2", "100"));
    let nine = clock(9, 61);
    let ten = clock(10, 61);
    assert_eq!(limiter.check_at("carol", &SubscriptionTier::Basic, &nine), Ok((2, 1)));
    assert_eq!(limiter.check_at("carol", &SubscriptionTier::Basic, &nine), Ok((2, 0)));
    assert!(limiter.check_at("carol", &SubscriptionTier::Basic, &nine).is_err());
    assert_eq!(limiter.check_at("carol", &SubscriptionTier::Basic, &ten), Ok((2, 1)));
    assert_eq!(limiter.check_at("carol", &SubscriptionTier::Basic, &ten), Ok((2, 0)));
    assert_eq!(
        limiter.check_at("carol", &SubscriptionTier::Basic, &ten),
        Err(refusal("basic", 2, "2024-03-01T11:00:00Z"))
    );
}

#[test]
fn new_hour_resets_any_count() {
    for count in [0u64, 1, 4, 5, 1_000_000, u64::MAX] {
        let mut entry = RateLimitEntry { count, hour: 9, day: 61 };
        assert_eq!(entry.tally(10, 61, 5), Some(4));
        assert_eq!(entry, RateLimitEntry { count: 1, hour: 10, day: 61 });
    }
}

#[test]
fn same_hour_of_another_day_is_a_new_window() {
    let mut limiter = RateLimiter::new(config_with("1", "100"));
    assert_eq!(limiter.check_at("dave", &SubscriptionTier::Basic, &clock(9, 61)), Ok((1, 0)));
    assert!(limiter.check_at("dave", &SubscriptionTier::Basic, &clock(9, 61)).is_err());
    assert_eq!(limiter.check_at("dave", &SubscriptionTier::Basic, &clock(9, 62)), Ok((1, 0)));
}

#[test]
fn users_and_tiers_are_counted_apart() {
    let mut limiter = RateLimiter::new(config_with("1", "2"));
    let now = clock(9, 61);
    assert_eq!(limiter.check_at("erin", &SubscriptionTier::Basic, &now), Ok((1, 0)));
    assert_eq!(limiter.check_at("frank", &SubscriptionTier::Basic, &now), Ok((1, 0)));
    assert_eq!(limiter.check_at("erin", &SubscriptionTier::Pro, &now), Ok((2, 1)));
    assert!(limiter.check_at("erin", &SubscriptionTier::Basic, &now).is_err());
    assert!(limiter.check_at("frank", &SubscriptionTier::Basic, &now).is_err());
    assert_eq!(limiter.check_at("erin", &SubscriptionTier::Pro, &now), Ok((2, 0)));
}

#[test]
fn quota_of_zero_refuses_at_once() {
    let mut limiter = RateLimiter::new(config_with("0", "100"));
    let now = clock(9, 61);
    assert_eq!(
        limiter.check_at("gina", &SubscriptionTier::Basic, &now),
        Err(refusal("basic", 0, "2024-03-01T10:00:00Z"))
    );
    let mut stale = RateLimitEntry { count: 3, hour: 8, day: 61 };
    assert_eq!(stale.tally(9, 61, 0), None);
    assert_eq!(stale, RateLimitEntry { count: 0, hour: 9, day: 61 });
}

#[test]
fn check_reads_the_system_clock() {
    let mut limiter = RateLimiter::new(config_with("3", "100"));
    let first = limiter.check("henry", &SubscriptionTier::Basic);
    assert_eq!(first, Ok((3, 2)));
    let second = limiter.check("henry", &SubscriptionTier::Basic).unwrap();
    assert_eq!(second.0, 3);
    assert!(second.1 == 1 || second.1 == 2);
}

#[test]
fn reset_time_is_the_top_of_an_hour() {
    let stamp = RateLimiter::reset_time().unwrap();
    assert_eq!(stamp.len(), 20);
    assert!(stamp.ends_with(":00:00Z"));
    assert_eq!(&stamp[10..11], "T");
}
