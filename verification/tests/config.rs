use news_gateway::config::Config;
use news_gateway::config::Environment;

fn empty() -> Environment {
    Environment {
        es_host: None,
        es_username: None,
        es_password: None,
        es_index_pattern: None,
        port: None,
        rapidapi_proxy_secret: None,
        rate_limit_basic: None,
        rate_limit_pro: None,
        rate_limit_ultra: None,
        rate_limit_mega: None,
    }
}

fn text(s: &str) -> Option<String> {
    Some(s.to_string())
}

#[test]
fn defaults() {
    let c = Config::from_env(empty());
    assert_eq!(c.es_host, "https://local-es.nusarithm.id");
    assert_eq!(c.es_username, "elastic");
    assert_eq!(c.es_password, "");
    assert_eq!(c.es_index_pattern, "online-news-*");
    assert_eq!(c.port, 3000);
    assert_eq!(c.rapidapi_proxy_secret, "");
    assert_eq!(c.rate_limit_basic, 5);
    assert_eq!(c.rate_limit_pro, 100);
    assert_eq!(c.rate_limit_ultra, 1000);
    assert_eq!(c.rate_limit_mega, 10000);
}

#[test]
fn settings_are_taken_over() {
    let c = Config::from_env(Environment {
        es_host: text("http://es:9200"),
        es_username: text("reader"),
        es_password: text("s3cret"),
        es_index_pattern: text("news-2024-*"),
        port: text("8080"),
        rapidapi_proxy_secret: text("abc"),
        rate_limit_basic: text("1"),
        rate_limit_pro: text("20"),
        rate_limit_ultra: text("300"),
        rate_limit_mega: text("18446744073709551615"),
    });
    assert_eq!(c.es_host, "http://es:9200");
    assert_eq!(c.es_username, "reader");
    assert_eq!(c.es_password, "s3cret");
    assert_eq!(c.es_index_pattern, "news-2024-*");
    assert_eq!(c.port, 8080);
    assert_eq!(c.rapidapi_proxy_secret, "abc");
    assert_eq!(c.rate_limit_basic, 1);
    assert_eq!(c.rate_limit_pro, 20);
    assert_eq!(c.rate_limit_ultra, 300);
    assert_eq!(c.rate_limit_mega, u64::MAX);
}

#[test]
fn numbers_that_cannot_be_read_take_the_default() {
    for bad in ["", "+", "abc", "12a", " 12", "12 ", "-1", "1.5", "1_000", "0x10", "++1"] {
        let c = Config::from_env(Environment {
            port: text(bad),
            rate_limit_basic: text(bad),
            rate_limit_mega: text(bad),
            ..empty()
        });
        assert_eq!(c.port, 3000, "port from {:?}", bad);
        assert_eq!(c.rate_limit_basic, 5, "quota from {:?}", bad);
        assert_eq!(c.rate_limit_mega, 10000, "quota from {:?}", bad);
    }
}

#[test]
fn plus_sign_and_leading_zeros_are_read() {
    let c = Config::from_env(Environment {
        port: text("+0080"),
        rate_limit_basic: text("+7"),
        rate_limit_pro: text("000"),
        ..empty()
    });
    assert_eq!(c.port, 80);
    assert_eq!(c.rate_limit_basic, 7);
    assert_eq!(c.rate_limit_pro, 0);
}

#[test]
fn long_runs_of_leading_zeros_are_read() {
    let c = Config::from_env(Environment {
        port: text("00000000000000000000000000000000000000000000000080"),
        rate_limit_basic: text("+000000000000000000000000000000000000000018446744073709551615"),
        rate_limit_pro: text("000000000000000000000000000000000000000018446744073709551616"),
        ..empty()
    });
    assert_eq!(c.port, 80);
    assert_eq!(c.rate_limit_basic, u64::MAX);
    assert_eq!(c.rate_limit_pro, 100);
}

#[test]
fn digits_of_other_scripts_are_not_read() {
    let c = Config::from_env(Environment {
        port: text("\u{661}\u{662}"),
        rate_limit_basic: text("\u{ff11}"),
        ..empty()
    });
    assert_eq!(c.port, 3000);
    assert_eq!(c.rate_limit_basic, 5);
}

#[test]
fn numbers_that_do_not_fit_take_the_default() {
    let c = Config::from_env(Environment {
        port: text("65536"),
        rate_limit_basic: text("18446744073709551616"),
        ..empty()
    });
    assert_eq!(c.port, 3000);
    assert_eq!(c.rate_limit_basic, 5);
    let c = Config::from_env(Environment { port: text("65535"), ..empty() });
    assert_eq!(c.port, 65535);
}
