use std::time::Duration;

use earningsfeed_cli::error::{classify, from_feed, CliError, ErrorKind, FeedError};

#[test]
fn every_kind_maps_to_its_one_exit_code() {
    assert_eq!(CliError::General("x".to_string()).exit_code(), 1);
    assert_eq!(CliError::Validation("x".to_string()).exit_code(), 2);
    assert_eq!(CliError::Config("x".to_string()).exit_code(), 2);
    assert_eq!(CliError::Authentication("x".to_string()).exit_code(), 3);
    assert_eq!(CliError::RateLimit.exit_code(), 4);
    assert_eq!(CliError::NotFound("x".to_string()).exit_code(), 5);
    assert_eq!(CliError::Network("x".to_string()).exit_code(), 6);
}

#[test]
fn exit_code_is_stable_across_repeated_classification() {
    for _ in 0..3 {
        assert_eq!(CliError::RateLimit.exit_code(), 4);
        assert_eq!(CliError::NotFound("a".to_string()).exit_code(), 5);
        assert_eq!(CliError::NotFound("b".to_string()).exit_code(), 5);
    }
}

#[test]
fn messages_follow_the_display_rules() {
    assert_eq!(CliError::General("boom".to_string()).message(), "boom");
    assert_eq!(CliError::RateLimit.message(), "rate limit exceeded");
    assert_eq!(
        CliError::Config("file unreadable".to_string()).message(),
        "config error: file unreadable"
    );
}

#[test]
fn classification_covers_every_feed_failure() {
    let e = classify(FeedError::Authentication);
    assert_eq!(e.kind_of(), ErrorKind::Authentication);
    assert_eq!(e.message(), "invalid or missing API key");

    let e = classify(FeedError::RateLimit { reset_at: Some(1703520000) });
    assert_eq!(e.kind_of(), ErrorKind::RateLimit);
    assert_eq!(e.exit_code(), 4);

    let e = classify(FeedError::NotFound { path: "/filings/x".to_string() });
    assert_eq!(e.kind_of(), ErrorKind::NotFound);
    assert_eq!(e.message(), "not found: /filings/x");

    let e = classify(FeedError::Validation { message: "limit out of range".to_string() });
    assert_eq!(e.kind_of(), ErrorKind::Validation);
    assert_eq!(e.message(), "limit out of range");

    let e = classify(FeedError::Api {
        status: 500,
        message: "internal".to_string(),
        code: Some("INTERNAL_ERROR".to_string()),
    });
    assert_eq!(e.kind_of(), ErrorKind::General);
    assert_eq!(e.message(), "internal");

    let e = classify(FeedError::Timeout { elapsed: "30s".to_string() });
    assert_eq!(e.kind_of(), ErrorKind::Network);
    assert_eq!(e.message(), "request timed out after 30s");

    let e = classify(FeedError::Http { detail: "connection refused".to_string() });
    assert_eq!(e.kind_of(), ErrorKind::Network);
    assert_eq!(e.message(), "connection refused");

    let e = classify(FeedError::Json { detail: "eof".to_string() });
    assert_eq!(e.kind_of(), ErrorKind::General);

    let e = classify(FeedError::Config { message: "bad base url".to_string() });
    assert_eq!(e.kind_of(), ErrorKind::Config);
    assert_eq!(e.message(), "config error: bad base url");
}

#[test]
fn real_client_failures_classify_through_the_same_table() {
    let e = from_feed(earningsfeed::Error::NotFound {
        path: "/filings/0000000000-00-000000".to_string(),
    });
    assert_eq!(e.kind_of(), ErrorKind::NotFound);
    assert_eq!(e.exit_code(), 5);
    assert_eq!(e.message(), "not found: /filings/0000000000-00-000000");

    let e = from_feed(earningsfeed::Error::Authentication);
    assert_eq!(e.kind_of(), ErrorKind::Authentication);
    assert_eq!(e.exit_code(), 3);

    let e = from_feed(earningsfeed::Error::RateLimit { reset_at: None });
    assert_eq!(e.kind_of(), ErrorKind::RateLimit);
    assert_eq!(e.exit_code(), 4);

    let e = from_feed(earningsfeed::Error::Timeout(Duration::from_secs(30)));
    assert_eq!(e.kind_of(), ErrorKind::Network);
    assert_eq!(e.exit_code(), 6);
    assert_eq!(e.message(), "request timed out after 30s");

    let e = from_feed(earningsfeed::Error::Validation {
        message: "limit must be between 1 and 100".to_string(),
    });
    assert_eq!(e.kind_of(), ErrorKind::Validation);
    assert_eq!(e.exit_code(), 2);

    let e = from_feed(earningsfeed::Error::Config("no base url".to_string()));
    assert_eq!(e.kind_of(), ErrorKind::Config);
    assert_eq!(e.exit_code(), 2);

    let e = from_feed(earningsfeed::Error::Api {
        status: 503,
        message: "unavailable".to_string(),
        code: None,
    });
    assert_eq!(e.kind_of(), ErrorKind::General);
    assert_eq!(e.exit_code(), 1);
}
