use news_gateway::config::Config;
use news_gateway::config::Environment;
use news_gateway::tier::SubscriptionTier;

fn default_config() -> Config {
    Config::from_env(Environment {
        es_host: None,
        es_username: None,
        es_password: None,
        es_index_pattern: None,
        port: None,
        rapidapi_proxy_secret: None,
        rate_limit_basic: None,
        rate_limit_pro: None,
        rate_limit_ultra: None,
        rate_limit_mega: None,
    })
}

#[test]
fn label_is_read_whatever_its_case() {
    assert_eq!(SubscriptionTier::from_header("pro"), SubscriptionTier::Pro);
    assert_eq!(SubscriptionTier::from_header("PRO"), SubscriptionTier::Pro);
    assert_eq!(SubscriptionTier::from_header("Ultra"), SubscriptionTier::Ultra);
    assert_eq!(SubscriptionTier::from_header("mEgA"), SubscriptionTier::Mega);
    assert_eq!(SubscriptionTier::from_header("basic"), SubscriptionTier::Basic);
}

#[test]
fn unknown_label_is_basic() {
    assert_eq!(SubscriptionTier::from_header(""), SubscriptionTier::Basic);
    assert_eq!(SubscriptionTier::from_header("platinum"), SubscriptionTier::Basic);
    assert_eq!(SubscriptionTier::from_header(" pro"), SubscriptionTier::Basic);
    assert_eq!(SubscriptionTier::from_header("custom"), SubscriptionTier::Basic);
    assert_eq!(SubscriptionTier::from_header("CUSTOM"), SubscriptionTier::Basic);
    assert_eq!(SubscriptionTier::from_header("enterprise"), SubscriptionTier::Basic);
}

#[test]
fn label_is_put_in_upper_case_by_the_rules_of_unicode() {
    assert_eq!(SubscriptionTier::from_header("ba\u{17f}ic"), SubscriptionTier::Basic);
    assert_eq!(SubscriptionTier::from_header("m\u{e9}ga"), SubscriptionTier::Basic);
    assert_eq!(SubscriptionTier::from_header("\u{1d18}ro"), SubscriptionTier::Basic);
}

#[test]
fn upper_label_is_matched_exactly() {
    assert_eq!(SubscriptionTier::from_upper_label("PRO"), SubscriptionTier::Pro);
    assert_eq!(SubscriptionTier::from_upper_label("pro"), SubscriptionTier::Basic);
    assert_eq!(SubscriptionTier::from_upper_label("ULTRA"), SubscriptionTier::Ultra);
    assert_eq!(SubscriptionTier::from_upper_label("MEGA"), SubscriptionTier::Mega);
    assert_eq!(SubscriptionTier::from_upper_label("BASIC"), SubscriptionTier::Basic);
    assert_eq!(SubscriptionTier::from_upper_label("CUSTOM"), SubscriptionTier::Basic);
}

#[test]
fn tier_table() {
    let config = default_config();
    let tiers = [
        (SubscriptionTier::Basic, "basic", 5u64, 10u64, false, false, "Free"),
        (SubscriptionTier::Pro, "pro", 100, 25, true, false, "$49/mo"),
        (SubscriptionTier::Ultra, "ultra", 1000, 50, true, true, "$99/mo"),
        (SubscriptionTier::Mega, "mega", 10000, 100, true, true, "$199/mo"),
    ];
    for (tier, name, quota, page, full, entities, price) in tiers {
        assert_eq!(tier.name(), name);
        assert_eq!(tier.hourly_limit(&config), quota);
        assert_eq!(tier.max_page_size(), page);
        assert_eq!(tier.has_full_content(), full);
        assert_eq!(tier.has_entities(), entities);
        assert_eq!(tier.price_label(), price);
    }
}
