use reqwest::header::{HeaderMap, HeaderValue};
use rrelayer::http_client::{ApiBaseConfig, ApiSdkError, AuthConfig, HttpClient, error_for_status};

fn client_with(server_url: &str, auth: AuthConfig) -> HttpClient {
    HttpClient::new(ApiBaseConfig { server_url: server_url.to_string(), auth })
}

fn api_key_client(server_url: &str) -> HttpClient {
    client_with(server_url, AuthConfig::ApiKey { api_key: "key-123".to_string() })
}

fn header_str<'a>(headers: &'a HeaderMap, name: &str) -> &'a str {
    headers.get(name).unwrap().to_str().unwrap()
}

#[test]
fn build_url_joins_with_one_slash() {
    let client = api_key_client("http://localhost:3000");
    assert_eq!(client.build_url("relayers"), "http://localhost:3000/relayers");
}

#[test]
fn build_url_trims_slashes_at_the_seam() {
    let client = api_key_client("http://localhost:3000///");
    assert_eq!(client.build_url("///relayers/abc/"), "http://localhost:3000/relayers/abc/");
}

#[test]
fn build_url_with_trailing_and_leading_slash() {
    let client = api_key_client("http://localhost:3000/");
    assert_eq!(client.build_url("/transactions/status"), "http://localhost:3000/transactions/status");
}

#[test]
fn build_url_of_empty_endpoint() {
    let client = api_key_client("https://relayer.example/api/");
    assert_eq!(client.build_url(""), "https://relayer.example/api/");
    assert_eq!(client.build_url("/"), "https://relayer.example/api/");
}

#[test]
fn build_url_keeps_inner_slashes_and_unicode() {
    let client = api_key_client("http://hôst/a//b");
    assert_eq!(client.build_url("c//d"), "http://hôst/a//b/c//d");
}

#[test]
fn build_url_seam_law_on_values() {
    let plain = api_key_client("http://h").build_url("x");
    assert_eq!(api_key_client("http://h/").build_url("x"), plain);
    assert_eq!(api_key_client("http://h").build_url("/x"), plain);
}

#[test]
fn build_headers_basic_auth() {
    let client = client_with(
        "http://h",
        AuthConfig::BasicAuth { username: "user".to_string(), password: "pass".to_string() },
    );
    let headers = client.build_headers(None);
    assert_eq!(headers.len(), 2);
    assert_eq!(header_str(&headers, "content-type"), "application/json");
    assert_eq!(header_str(&headers, "authorization"), "Basic dXNlcjpwYXNz");
}

#[test]
fn build_headers_basic_auth_padding_and_unicode() {
    let client = client_with(
        "http://h",
        AuthConfig::BasicAuth { username: "é".to_string(), password: "".to_string() },
    );
    let headers = client.build_headers(None);
    assert_eq!(header_str(&headers, "authorization"), "Basic w6k6");
    let client = client_with(
        "http://h",
        AuthConfig::BasicAuth { username: "a".to_string(), password: "b".to_string() },
    );
    assert_eq!(header_str(&client.build_headers(None), "authorization"), "Basic YTpi");
}

#[test]
fn build_headers_api_key() {
    let client = api_key_client("http://h");
    let headers = client.build_headers(None);
    assert_eq!(headers.len(), 2);
    assert_eq!(header_str(&headers, "content-type"), "application/json");
    assert_eq!(header_str(&headers, "authorization"), "Bearer key-123");
}

#[test]
fn build_headers_additional_headers_override_and_add() {
    let client = api_key_client("http://h");
    let mut extra = HeaderMap::new();
    extra.insert("content-type", HeaderValue::from_static("text/plain"));
    extra.insert("x-request-id", HeaderValue::from_static("42"));
    let headers = client.build_headers(Some(extra));
    assert_eq!(headers.len(), 3);
    assert_eq!(header_str(&headers, "content-type"), "text/plain");
    assert_eq!(header_str(&headers, "x-request-id"), "42");
    assert_eq!(header_str(&headers, "authorization"), "Bearer key-123");
}

#[test]
fn build_headers_takes_first_value_of_additional_header() {
    let client = api_key_client("http://h");
    let mut extra = HeaderMap::new();
    extra.append("x-tag", HeaderValue::from_static("first"));
    extra.append("x-tag", HeaderValue::from_static("second"));
    extra.insert("authorization", HeaderValue::from_static("Bearer other"));
    let headers = client.build_headers(Some(extra));
    let tags: Vec<&HeaderValue> = headers.get_all("x-tag").iter().collect();
    assert_eq!(tags.len(), 1);
    assert_eq!(tags[0], "first");
    assert_eq!(header_str(&headers, "authorization"), "Bearer other");
    assert_eq!(headers.len(), 3);
}

#[test]
fn build_headers_empty_additional_map() {
    let client = api_key_client("http://h");
    let headers = client.build_headers(Some(HeaderMap::new()));
    assert_eq!(headers.len(), 2);
}

#[test]
fn handle_response_status_unauthorized() {
    let client = api_key_client("http://h");
    match client.handle_response_status(401) {
        Err(ApiSdkError::AuthError(message)) => assert_eq!(message, "Unauthorized"),
        _ => panic!("401 is an authentication error"),
    }
}

#[test]
fn handle_response_status_forbidden() {
    let client = api_key_client("http://h");
    match client.handle_response_status(403) {
        Err(ApiSdkError::AuthError(message)) => assert_eq!(message, "Forbidden"),
        _ => panic!("403 is an authentication error"),
    }
}

#[test]
fn handle_response_status_rate_limited() {
    let client = api_key_client("http://h");
    assert!(matches!(client.handle_response_status(429), Err(ApiSdkError::RateLimitError)));
}

#[test]
fn handle_response_status_lets_others_pass() {
    let client = api_key_client("http://h");
    for status in [200u16, 201, 204, 301, 400, 404, 500, 503] {
        assert!(client.handle_response_status(status).is_ok());
    }
}

#[test]
fn error_for_status_flags_client_and_server_errors() {
    assert!(error_for_status(200).is_ok());
    assert!(error_for_status(399).is_ok());
    assert!(matches!(error_for_status(400), Err(ApiSdkError::HttpStatusError(400))));
    assert!(matches!(error_for_status(404), Err(ApiSdkError::HttpStatusError(404))));
    assert!(matches!(error_for_status(599), Err(ApiSdkError::HttpStatusError(599))));
    assert!(error_for_status(600).is_ok());
}

#[test]
fn check_response_prefers_the_sdk_errors() {
    let client = api_key_client("http://h");
    assert!(client.check_response(200).is_ok());
    assert!(matches!(client.check_response(401), Err(ApiSdkError::AuthError(_))));
    assert!(matches!(client.check_response(429), Err(ApiSdkError::RateLimitError)));
    assert!(matches!(client.check_response(404), Err(ApiSdkError::HttpStatusError(404))));
    assert!(matches!(client.check_response(502), Err(ApiSdkError::HttpStatusError(502))));
}

#[test]
fn check_optional_response_treats_404_as_missing() {
    let client = api_key_client("http://h");
    assert!(matches!(client.check_optional_response(404), Ok(false)));
    assert!(matches!(client.check_optional_response(200), Ok(true)));
    assert!(matches!(client.check_optional_response(403), Err(ApiSdkError::AuthError(_))));
    assert!(matches!(client.check_optional_response(500), Err(ApiSdkError::HttpStatusError(500))));
}

#[test]
fn build_headers_empty_additional_map_equals_none() {
    let client = api_key_client("http://h");
    assert_eq!(client.build_headers(Some(HeaderMap::new())), client.build_headers(None));
}

#[test]
fn build_headers_basic_auth_with_caller_headers() {
    let client = client_with(
        "http://h",
        AuthConfig::BasicAuth { username: "user".to_string(), password: "pass".to_string() },
    );
    let mut extra = HeaderMap::new();
    extra.insert("content-type", HeaderValue::from_static("text/plain"));
    extra.insert("x-request-id", HeaderValue::from_static("abc"));
    let headers = client.build_headers(Some(extra));
    assert_eq!(headers.len(), 3);
    let content_types: Vec<&HeaderValue> = headers.get_all("content-type").iter().collect();
    assert_eq!(content_types, vec![&HeaderValue::from_static("text/plain")]);
    assert_eq!(header_str(&headers, "authorization"), "Basic dXNlcjpwYXNz");
    assert_eq!(header_str(&headers, "x-request-id"), "abc");
}
