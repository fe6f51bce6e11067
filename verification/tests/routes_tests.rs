use ntfy_bridge::text::{eq_ignore_ascii_case, str_eq};
use ntfy_bridge::ntfy_client::NtfyClientBuilder;
use ntfy_bridge::config::NtfyCredentials;
use ntfy_bridge::routes::{
    api_prefix, decimal_string, health_route, public_cache_control,
    NOT_FOUND_MAX_AGE, ROBOTS_TXT, ROBOTS_TXT_MAX_AGE,
};
use ntfy_bridge::url_check::{ntfy_url_verdict, parse_ntfy_url, UrlParts};

#[test]
fn health_route_sits_under_the_base_path() {
    assert_eq!(health_route("api"), "/api/v1/health");
    assert_eq!(health_route("bridge"), "/bridge/v1/health");
    assert_ne!(health_route("bridge"), health_route("api"));
    assert_eq!(api_prefix("api"), "/api/v1");
}

#[test]
fn cache_headers_carry_the_seconds() {
    assert_eq!(public_cache_control(ROBOTS_TXT_MAX_AGE), "public, max-age=86400");
    assert_eq!(public_cache_control(NOT_FOUND_MAX_AGE), "public, max-age=3600");
    assert_eq!(decimal_string(NOT_FOUND_MAX_AGE), "3600");
    assert_eq!(ROBOTS_TXT, "User-agent: *\nDisallow: /");
}

#[test]
fn decimal_numerals() {
    assert_eq!(decimal_string(0), "0");
    assert_eq!(decimal_string(7), "7");
    assert_eq!(decimal_string(10), "10");
    assert_eq!(decimal_string(u64::MAX), u64::MAX.to_string());
}

#[test]
fn ntfy_url_check() {
    assert_eq!(parse_ntfy_url("https://ntfy.sh"), Ok("https://ntfy.sh".to_string()));
    assert_eq!(parse_ntfy_url("HTTP://Example.com:8080/x"), Ok("HTTP://Example.com:8080/x".to_string()));
    assert_eq!(
        parse_ntfy_url("ftp://ntfy.sh"),
        Err("scheme must be http or https".to_string())
    );
    assert_eq!(parse_ntfy_url("https://"), Err("invalid URL: empty host".to_string()));
}

#[test]
fn ntfy_url_verdict_on_given_parts() {
    let no_host = UrlParts { scheme: "http".to_string(), host: None, serialization: "http:x".to_string() };
    assert_eq!(ntfy_url_verdict("http:x", Ok(no_host)), Err("URL must have a host".to_string()));
    let ok = UrlParts { scheme: "https".to_string(), host: Some("h".to_string()), serialization: "https://h/".to_string() };
    assert_eq!(ntfy_url_verdict("https://h", Ok(ok)), Ok("https://h".to_string()));
    assert_eq!(
        ntfy_url_verdict("x", Err("boom".to_string())),
        Err("invalid URL: boom".to_string())
    );
}

#[test]
fn client_builder_keeps_url_and_credentials() {
    let b = NtfyClientBuilder::new("https://ntfy.sh", NtfyCredentials::AuthToken("t".to_string()));
    assert_eq!(b.url, "https://ntfy.sh");
    assert!(matches!(b.credentials, NtfyCredentials::AuthToken(ref t) if t == "t"));
}

#[test]
fn text_comparisons() {
    assert!(str_eq("abc", "abc"));
    assert!(!str_eq("abc", "abd"));
    assert!(!str_eq("abc", "ab"));
    assert!(eq_ignore_ascii_case("ReAcHaBlE", "reachable"));
    assert!(!eq_ignore_ascii_case("reachable", "unreachable"));
    assert!(!eq_ignore_ascii_case("É", "é"));
}
