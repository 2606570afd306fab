use graph_graphql::config::Config;
use graph_graphql::errors::QueryError;
use graph_graphql::orchestrator::{GraphQlRunner, Query, Subscription};
use graph_graphql::subscription::classify_cycle;
use graphql_parser::query as q;

fn test_config() -> Config {
    Config {
        query_timeout: Some(10),
        max_complexity: Some(500),
        max_depth: Some(50),
        max_first: Some(25),
    }
}

fn test_subscription(schema_id: u64) -> Subscription {
    Subscription {
        query: Query {
            schema_id,
            document: graphql_parser::parse_query("subscription { things { id } }").unwrap(),
            variables: None,
            operation_name: None,
        },
    }
}

#[test]
fn subscription_limits_come_from_defaults_only() {
    let runner = GraphQlRunner::new(test_config());
    let sub = test_subscription(3);
    let pending = runner.run_subscription(&sub);
    assert_eq!(pending.schema_id, 3);
    assert_eq!(pending.limits.max_complexity, Some(500));
    assert_eq!(pending.limits.max_depth, 50);
    assert_eq!(pending.limits.max_first, 25);
    // Relative per-cycle timeout, not an absolute deadline.
    assert_eq!(pending.limits.query_timeout, Some(10));
}

#[test]
fn preparation_failure_fails_the_subscribe_call_before_any_stream() {
    let runner = GraphQlRunner::new(test_config());
    let sub = test_subscription(1);
    let mut streams_started: u32 = 0;

    let result = match runner
        .run_subscription(&sub)
        .on_prepared(Err(vec![QueryError::Validation("depth budget exceeded".to_string())]))
    {
        Ok(live) => {
            streams_started += 1;
            live.on_started(Ok(vec![q::Value::Null]))
        }
        Err(errors) => Err(errors),
    };

    assert_eq!(streams_started, 0);
    let errors = result.unwrap_err();
    assert_eq!(errors.errors, vec![QueryError::Validation("depth budget exceeded".to_string())]);
}

#[test]
fn successful_subscribe_returns_the_stream_handle() {
    let runner = GraphQlRunner::new(test_config());
    let sub = test_subscription(1);
    let live = runner.run_subscription(&sub).on_prepared(Ok(())).unwrap();
    assert_eq!(live.limits.max_first, 25);
    // The host's stream handle passes through unchanged.
    let stream = live.on_started(Ok("stream-handle")).unwrap();
    assert_eq!(stream, "stream-handle");
}

#[test]
fn cycle_failure_is_an_error_element_and_keeps_the_stream_open() {
    let report = classify_cycle::<q::Value>(Err(vec![QueryError::Timeout]), false);
    assert!(report.stream_open);
    let errors = report.element.unwrap_err();
    assert!(errors.is_timeout());
    assert_eq!(errors.errors, vec![QueryError::Timeout]);
}

#[test]
fn fatal_cycle_failure_closes_the_stream() {
    let report = classify_cycle::<q::Value>(
        Err(vec![QueryError::Execution("resolver gone".to_string())]),
        true,
    );
    assert!(!report.stream_open);
    assert_eq!(
        report.element.unwrap_err().errors,
        vec![QueryError::Execution("resolver gone".to_string())]
    );
}

#[test]
fn successful_cycle_emits_its_value_and_stays_open() {
    let report = classify_cycle(Ok(q::Value::Boolean(true)), false);
    assert!(report.stream_open);
    assert_eq!(report.element.unwrap(), q::Value::Boolean(true));
}
