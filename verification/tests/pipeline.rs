use std::time::Duration;

use tracing_axiom::{
    endpoint_from, headers, resource, starts_with, timeout_or_default, user_agent, Builder,
    Error, PipelineConfig, DEFAULT_TIMEOUT_SECS, SDK_LANGUAGE, SDK_NAME, SDK_VERSION,
};

fn pair(name: &str, value: &str) -> (String, String) {
    (name.to_string(), value.to_string())
}

/// The endpoint that a complete builder arrives at for `url`.
fn parse_endpoint(url: &str) -> Result<String, Error> {
    Builder::default()
        .no_env()
        .with_token("xaat-snot")
        .with_dataset("test")
        .with_url(url)
        .tracer()
        .map(|config| config.endpoint)
}

#[test]
fn header_lines() {
    assert_eq!(
        headers("xaat-snot", "test".to_string()),
        vec![
            pair("Authorization", "Bearer xaat-snot"),
            pair("X-Axiom-Dataset", "test"),
            pair("User-Agent", "tracing-axiom/0.7.0"),
        ]
    );
    assert_eq!(
        headers("", String::new()),
        vec![
            pair("Authorization", "Bearer "),
            pair("X-Axiom-Dataset", ""),
            pair("User-Agent", "tracing-axiom/0.7.0"),
        ]
    );
}

#[test]
fn user_agent_names_library_and_version() {
    assert_eq!(user_agent(), "tracing-axiom/0.7.0");
    assert_eq!(user_agent(), format!("{}/{}", SDK_NAME, SDK_VERSION));
}

#[test]
fn resource_without_tags_or_service_name() {
    assert_eq!(
        resource(Vec::new(), None),
        vec![
            pair("telemetry.sdk.name", "tracing-axiom"),
            pair("telemetry.sdk.version", "0.7.0"),
            pair("telemetry.sdk.language", "rust"),
        ]
    );
    assert_eq!(SDK_LANGUAGE, "rust");
}

#[test]
fn resource_keeps_tags_first_and_service_name_last() {
    let tags = vec![pair("aws_region", "us-east-1"), pair("stage", "dev")];
    assert_eq!(
        resource(tags, Some("checkout".to_string())),
        vec![
            pair("aws_region", "us-east-1"),
            pair("stage", "dev"),
            pair("telemetry.sdk.name", "tracing-axiom"),
            pair("telemetry.sdk.version", "0.7.0"),
            pair("telemetry.sdk.language", "rust"),
            pair("service.name", "checkout"),
        ]
    );
}

#[test]
fn resource_keeps_a_tag_under_a_derived_key() {
    let tags = vec![
        pair("telemetry.sdk.name", "mine"),
        pair("service.name", "tagged"),
    ];
    assert_eq!(
        resource(tags, Some("named".to_string())),
        vec![
            pair("telemetry.sdk.name", "mine"),
            pair("service.name", "tagged"),
            pair("telemetry.sdk.name", "tracing-axiom"),
            pair("telemetry.sdk.version", "0.7.0"),
            pair("telemetry.sdk.language", "rust"),
            pair("service.name", "named"),
        ]
    );
}

#[test]
fn timeout_defaults_to_three_seconds() {
    assert_eq!(DEFAULT_TIMEOUT_SECS, 3);
    assert_eq!(timeout_or_default(None), Duration::from_secs(3));
    assert_eq!(timeout_or_default(None), Duration::new(3, 0));
    assert_eq!(
        timeout_or_default(Some(Duration::from_millis(250))),
        Duration::from_millis(250)
    );
    assert_eq!(timeout_or_default(Some(Duration::ZERO)), Duration::ZERO);
}

#[test]
fn endpoint_is_the_normal_form_of_the_url() {
    assert_eq!(
        parse_endpoint("https://api.axiom.co").unwrap(),
        "https://api.axiom.co/"
    );
    assert_eq!(
        parse_endpoint("HTTP://LocalHost:4318").unwrap(),
        "http://localhost:4318/"
    );
    assert_eq!(
        parse_endpoint("https://example.com:443/api/../v1/traces").unwrap(),
        "https://example.com/v1/traces"
    );
}

#[test]
fn endpoint_that_is_no_url() {
    assert!(matches!(
        parse_endpoint("<invalid>"),
        Err(Error::InvalidUrl(url::ParseError::RelativeUrlWithoutBase))
    ));
    assert!(matches!(
        parse_endpoint(""),
        Err(Error::InvalidUrl(url::ParseError::RelativeUrlWithoutBase))
    ));
    assert!(matches!(
        parse_endpoint("https://"),
        Err(Error::InvalidUrl(url::ParseError::EmptyHost))
    ));
    assert!(matches!(
        parse_endpoint("https://example.com:99999"),
        Err(Error::InvalidUrl(url::ParseError::InvalidPort))
    ));
}

#[test]
fn endpoint_from_a_parser_outcome() {
    assert_eq!(
        endpoint_from(Ok("https://example.com/".to_string())).unwrap(),
        "https://example.com/"
    );
    assert!(matches!(
        endpoint_from(Err(url::ParseError::EmptyHost)),
        Err(Error::InvalidUrl(url::ParseError::EmptyHost))
    ));
}

#[test]
fn assemble_with_a_url() {
    let config = PipelineConfig::assemble(
        "xaat-snot".to_string(),
        "test".to_string(),
        Ok("http://localhost:4318/".to_string()),
        vec![pair("aws_region", "us-east-1")],
        Some("svc".to_string()),
        None,
        Some(Duration::from_secs(10)),
    )
    .expect("the endpoint is a URL");
    assert_eq!(config.endpoint, "http://localhost:4318/");
    assert_eq!(
        config.headers,
        vec![
            pair("Authorization", "Bearer xaat-snot"),
            pair("X-Axiom-Dataset", "test"),
            pair("User-Agent", "tracing-axiom/0.7.0"),
        ]
    );
    assert_eq!(
        config.resource,
        vec![
            pair("aws_region", "us-east-1"),
            pair("telemetry.sdk.name", "tracing-axiom"),
            pair("telemetry.sdk.version", "0.7.0"),
            pair("telemetry.sdk.language", "rust"),
            pair("service.name", "svc"),
        ]
    );
    assert!(config.trace_config.is_none());
    assert_eq!(config.timeout, Duration::from_secs(10));
}

#[test]
fn assemble_without_a_url() {
    let result = PipelineConfig::assemble(
        "xaat-snot".to_string(),
        "test".to_string(),
        Err(url::ParseError::InvalidPort),
        Vec::new(),
        None,
        None,
        None,
    );
    assert!(matches!(
        result,
        Err(Error::InvalidUrl(url::ParseError::InvalidPort))
    ));
}

#[test]
fn header_names_differ() {
    let lines = headers("xaat-snot", "test".to_string());
    for i in 0..lines.len() {
        for j in (i + 1)..lines.len() {
            assert_ne!(lines[i].0, lines[j].0);
        }
    }
}

#[test]
fn prefixes() {
    assert!(starts_with("xaat-123", "xaat-"));
    assert!(starts_with("xaat-", "xaat-"));
    assert!(starts_with("anything", ""));
    assert!(starts_with("", ""));
    assert!(!starts_with("", "x"));
    assert!(!starts_with("xaat", "xaat-"));
    assert!(!starts_with("xaa-t", "xaat-"));
    assert!(!starts_with("Xaat-1", "xaat-"));
    assert!(starts_with("héllo wörld", "héllo"));
    assert!(!starts_with("hello", "héllo"));
    // One character of two bytes against the first of these bytes alone.
    assert!(!starts_with("é", "e"));
    assert!(starts_with("日本語", "日本"));
    assert!(!starts_with("日本語", "本"));
}
