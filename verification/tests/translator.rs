//! Tests of the request-translation layer: token normalization, option
//! building, and outcome relaying.

use scrape_facade::formats::{
    classify_crawl_token, classify_scrape_token, normalize_crawl_formats, normalize_formats,
    parse_crawl_formats, parse_formats, CrawlFormat, ScrapeFormat,
};
use scrape_facade::options::{
    build_crawl_options, build_scrape_options, CrawlRequest, ScrapeRequest,
};
use scrape_facade::relay::relay_outcome;

fn strings(tokens: &[&str]) -> Vec<String> {
    tokens.iter().map(|t| t.to_string()).collect()
}

fn sample_schema() -> serde_json::Value {
    let mut title = serde_json::Map::new();
    title.insert(
        "type".to_string(),
        serde_json::Value::String("string".to_string()),
    );
    let mut properties = serde_json::Map::new();
    properties.insert("title".to_string(), serde_json::Value::Object(title));
    let mut schema = serde_json::Map::new();
    schema.insert(
        "type".to_string(),
        serde_json::Value::String("object".to_string()),
    );
    schema.insert("properties".to_string(), serde_json::Value::Object(properties));
    serde_json::Value::Object(schema)
}

#[test]
fn classify_is_case_insensitive() {
    assert_eq!(classify_scrape_token("markdown"), Some(ScrapeFormat::Markdown));
    assert_eq!(classify_scrape_token("MARKDOWN"), Some(ScrapeFormat::Markdown));
    assert_eq!(classify_scrape_token("MarkDown"), Some(ScrapeFormat::Markdown));
    assert_eq!(classify_scrape_token("html"), Some(ScrapeFormat::Html));
    assert_eq!(classify_scrape_token("extract"), Some(ScrapeFormat::Extract));
    assert_eq!(classify_scrape_token("markdownn"), None);
    assert_eq!(classify_scrape_token(""), None);
}

#[test]
fn crawl_vocabulary_has_no_extract() {
    assert_eq!(classify_crawl_token("markdown"), Some(CrawlFormat::Markdown));
    assert_eq!(classify_crawl_token("HTML"), Some(CrawlFormat::Html));
    assert_eq!(classify_crawl_token("extract"), None);
}

#[test]
fn parse_keeps_order_and_drops_unrecognized() {
    let parsed = parse_formats(&strings(&["html", "nonsense", "markdown"]));
    assert_eq!(parsed, vec![ScrapeFormat::Html, ScrapeFormat::Markdown]);
    let parsed = parse_crawl_formats(&strings(&["extract", "html"]));
    assert_eq!(parsed, vec![CrawlFormat::Html]);
}

#[test]
fn parse_keeps_duplicates() {
    let parsed = parse_formats(&strings(&["markdown", "markdown"]));
    assert_eq!(parsed, vec![ScrapeFormat::Markdown, ScrapeFormat::Markdown]);
}

#[test]
fn normalize_returns_recognized_tokens() {
    let normalized = normalize_formats(&Some(strings(&["markdown", "html"])));
    assert_eq!(normalized, vec![ScrapeFormat::Markdown, ScrapeFormat::Html]);
}

#[test]
fn normalize_defaults_when_absent() {
    assert_eq!(normalize_formats(&None), vec![ScrapeFormat::Markdown]);
    assert_eq!(normalize_crawl_formats(&None), vec![CrawlFormat::Markdown]);
}

#[test]
fn normalize_defaults_when_all_unrecognized() {
    let normalized = normalize_formats(&Some(strings(&["pdf", "plain_text"])));
    assert_eq!(normalized, vec![ScrapeFormat::Markdown]);
    let normalized = normalize_crawl_formats(&Some(strings(&["extract"])));
    assert_eq!(normalized, vec![CrawlFormat::Markdown]);
}

#[test]
fn normalize_drops_invalid_token_silently() {
    let normalized = normalize_formats(&Some(strings(&["invalid_format", "markdown"])));
    assert_eq!(normalized, vec![ScrapeFormat::Markdown]);
}

#[test]
fn scrape_options_without_schema() {
    let options = build_scrape_options(ScrapeRequest {
        url: "https://example.com".to_string(),
        formats: Some(strings(&["markdown", "html"])),
        schema: None,
    });
    assert_eq!(options.formats, vec![ScrapeFormat::Markdown, ScrapeFormat::Html]);
    assert!(options.extract.is_none());
}

#[test]
fn scrape_options_schema_appends_extract() {
    let options = build_scrape_options(ScrapeRequest {
        url: "https://example.com".to_string(),
        formats: Some(strings(&["markdown"])),
        schema: Some(sample_schema()),
    });
    assert_eq!(options.formats, vec![ScrapeFormat::Markdown, ScrapeFormat::Extract]);
    let directive = options.extract.expect("schema should produce a directive");
    assert_eq!(directive.schema, sample_schema());
}

#[test]
fn scrape_options_schema_appends_extract_even_if_listed() {
    let options = build_scrape_options(ScrapeRequest {
        url: "https://example.com".to_string(),
        formats: Some(strings(&["markdown", "extract"])),
        schema: Some(sample_schema()),
    });
    assert_eq!(
        options.formats,
        vec![ScrapeFormat::Markdown, ScrapeFormat::Extract, ScrapeFormat::Extract]
    );
    assert!(options.extract.is_some());
}

#[test]
fn scrape_options_schema_with_absent_formats() {
    let options = build_scrape_options(ScrapeRequest {
        url: "https://example.com".to_string(),
        formats: None,
        schema: Some(sample_schema()),
    });
    assert_eq!(options.formats, vec![ScrapeFormat::Markdown, ScrapeFormat::Extract]);
}

#[test]
fn crawl_options_limit_defaults_to_100() {
    let options = build_crawl_options(CrawlRequest {
        url: "https://example.com".to_string(),
        limit: None,
        formats: Some(strings(&["markdown"])),
    });
    assert_eq!(options.limit, 100);
    assert_eq!(options.formats, vec![CrawlFormat::Markdown]);
}

#[test]
fn crawl_options_limit_passed_through() {
    let options = build_crawl_options(CrawlRequest {
        url: "https://example.com".to_string(),
        limit: Some(1),
        formats: Some(strings(&["markdown"])),
    });
    assert_eq!(options.limit, 1);
}

#[test]
fn crawl_options_negative_limit_wraps() {
    let options = build_crawl_options(CrawlRequest {
        url: "https://example.com".to_string(),
        limit: Some(-1),
        formats: None,
    });
    assert_eq!(options.limit, u32::MAX);
}

#[test]
fn relay_success_is_200_verbatim() {
    let reply = relay_outcome(Ok("{\"markdown\":\"# hi\"}".to_string()));
    assert_eq!(reply.status, 200);
    assert_eq!(reply.body, "{\"markdown\":\"# hi\"}");
}

#[test]
fn relay_error_is_500_with_text() {
    let reply = relay_outcome(Err("invalid URL".to_string()));
    assert_eq!(reply.status, 500);
    assert_eq!(reply.body, "invalid URL");
    assert!(!reply.body.is_empty());
}
