use graph_graphql::config::Config;
use graph_graphql::limits::{resolve, LimitOverrides, LimitSet, MAX_DEPTH_FALLBACK, MAX_FIRST_FALLBACK};

fn unset_config() -> Config {
    Config { query_timeout: None, max_complexity: None, max_depth: None, max_first: None }
}

#[test]
fn override_wins_over_default() {
    let over = LimitOverrides {
        max_complexity: Some(5),
        max_depth: Some(5),
        max_first: Some(5),
        query_timeout: Some(5),
    };
    let def = Config {
        query_timeout: Some(10),
        max_complexity: Some(10),
        max_depth: Some(10),
        max_first: Some(10),
    };
    let r = resolve(&over, &def);
    assert_eq!(r.max_complexity, Some(5));
    assert_eq!(r.max_depth, 5);
    assert_eq!(r.max_first, 5);
    assert_eq!(r.query_timeout, Some(5));
}

#[test]
fn default_wins_over_fallback() {
    let over = LimitOverrides::none();
    let def = Config {
        query_timeout: Some(10),
        max_complexity: Some(10),
        max_depth: Some(10),
        max_first: Some(10),
    };
    let r = resolve(&over, &def);
    assert_eq!(r.max_complexity, Some(10));
    assert_eq!(r.max_depth, 10);
    assert_eq!(r.max_first, 10);
    assert_eq!(r.query_timeout, Some(10));
}

#[test]
fn fallback_applies_with_nothing_set() {
    let r = resolve(&LimitOverrides::none(), &unset_config());
    assert_eq!(r.max_complexity, None);
    assert_eq!(r.max_depth, u8::MAX);
    assert_eq!(r.max_first, 1000);
    assert_eq!(r.query_timeout, None);
}

#[test]
fn fallback_constants_have_specified_values() {
    assert_eq!(MAX_DEPTH_FALLBACK, u8::MAX);
    assert_eq!(MAX_FIRST_FALLBACK, 1000);
}

#[test]
fn resolution_is_idempotent() {
    let over = LimitOverrides {
        max_complexity: Some(7),
        max_depth: None,
        max_first: Some(250),
        query_timeout: None,
    };
    let def = Config {
        query_timeout: Some(30),
        max_complexity: None,
        max_depth: Some(12),
        max_first: None,
    };
    let r1: LimitSet = resolve(&over, &def);
    let r2: LimitSet = resolve(&over, &def);
    assert_eq!(r1, r2);
}

#[test]
fn resources_resolve_independently() {
    let over = LimitOverrides {
        max_complexity: Some(5),
        max_depth: None,
        max_first: None,
        query_timeout: None,
    };
    let def = Config {
        query_timeout: None,
        max_complexity: Some(10),
        max_depth: Some(10),
        max_first: None,
    };
    let r = resolve(&over, &def);
    assert_eq!(r.max_complexity, Some(5));
    assert_eq!(r.max_depth, 10);
    assert_eq!(r.max_first, 1000);
    assert_eq!(r.query_timeout, None);
}
