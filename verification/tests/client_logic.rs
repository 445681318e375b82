use puddle::api::{
    collection_get, collection_upload_cover, parse_id_list, raindrop_get, raindrop_upload_cover,
    raindrops_list, raindrops_update_many, tags_rename, update_many_ids, user_me, Method,
};
use puddle::auth::{
    oauth_api_error, oauth_error_message, read_token_reply, GrantType, OauthErrorPayload,
    TokenReply, TokenRequestBuilder,
};
use puddle::client::{client_settings, request_url, strip_leading_slashes};
use puddle::http::{
    data_error, map_api_error, parse_rate_limit, read_response, ApiErrorPayload, Error,
    RateLimitInfo, ResponseReply,
};
use puddle::models::common::CollectionScope;
use puddle::models::raindrops::{RaindropListParams, UpdateManyParams, UpdateManyRaindrops};
use puddle::pagination::PerPage;

const OAUTH_REQUEST_FAILED_MESSAGE: &str = "oauth request failed";

fn payload(result: Option<bool>, error: Option<&str>, error_message: Option<&str>) -> ApiErrorPayload {
    ApiErrorPayload {
        result,
        error: error.map(|s| s.to_string()),
        error_message: error_message.map(|s| s.to_string()),
        message: None,
    }
}

#[test]
fn oauth_error_message_prefers_description_alias() {
    let parsed = Some(OauthErrorPayload {
        error: Some("invalid_grant".to_string()),
        message: Some("bad authorization code".to_string()),
    });
    assert_eq!(
        "bad authorization code",
        oauth_error_message(&parsed, OAUTH_REQUEST_FAILED_MESSAGE)
    );
}

#[test]
fn oauth_error_message_supports_error_message_alias() {
    let parsed = Some(OauthErrorPayload {
        error: Some("invalid_client".to_string()),
        message: Some("client credentials are invalid".to_string()),
    });
    assert_eq!(
        "client credentials are invalid",
        oauth_error_message(&parsed, OAUTH_REQUEST_FAILED_MESSAGE)
    );
}

#[test]
fn oauth_error_message_falls_back_to_error_code_then_default() {
    let parsed_with_error = Some(OauthErrorPayload {
        error: Some("invalid_scope".to_string()),
        message: None,
    });
    assert_eq!(
        "invalid_scope",
        oauth_error_message(&parsed_with_error, OAUTH_REQUEST_FAILED_MESSAGE)
    );

    let parsed_without_error = Some(OauthErrorPayload {
        error: None,
        message: None,
    });
    assert_eq!(
        OAUTH_REQUEST_FAILED_MESSAGE,
        oauth_error_message(&parsed_without_error, OAUTH_REQUEST_FAILED_MESSAGE)
    );
    assert_eq!(
        OAUTH_REQUEST_FAILED_MESSAGE,
        oauth_error_message(&None, OAUTH_REQUEST_FAILED_MESSAGE)
    );
}

#[test]
fn reads_rate_limit_headers() {
    let info = parse_rate_limit(Some("120"), Some("0"), Some("1700000000"));
    assert_eq!(
        RateLimitInfo {
            limit: Some(120),
            remaining: Some(0),
            reset_at: Some(1700000000),
        },
        info
    );
    let none = parse_rate_limit(Some("lots"), None, Some("soon"));
    assert_eq!(RateLimitInfo::default(), none);
    let far = parse_rate_limit(None, None, Some("9223372036854775807"));
    assert_eq!(None, far.reset_at);
}

#[test]
fn reset_times_hold_within_chrono_range() {
    let last = parse_rate_limit(None, None, Some("8210266876799"));
    assert_eq!(Some(8210266876799), last.reset_at);
    let past_last = parse_rate_limit(None, None, Some("8210266876800"));
    assert_eq!(None, past_last.reset_at);
    let first = parse_rate_limit(None, None, Some("-8334601228800"));
    assert_eq!(Some(-8334601228800), first.reset_at);
    let before_first = parse_rate_limit(None, None, Some("-8334601228801"));
    assert_eq!(None, before_first.reset_at);
}

#[test]
fn maps_rate_limit_error() {
    let info = parse_rate_limit(Some("120"), Some("0"), Some("1700000000"));
    match read_response(429, info, b"{}") {
        ResponseReply::Failed(Error::RateLimited { rate_limit }) => {
            assert_eq!(Some(120), rate_limit.limit);
            assert_eq!(Some(0), rate_limit.remaining);
            assert!(rate_limit.reset_at.is_some());
        }
        other => panic!("unexpected reply: {other:?}"),
    }
}

#[test]
fn maps_api_error_payload() {
    let body = br#"{"result": false, "error": "not_found", "errorMessage": "collection not found"}"#;
    let raw = match read_response(404, RateLimitInfo::default(), body) {
        ResponseReply::ErrorBody(raw) => raw,
        other => panic!("unexpected reply: {other:?}"),
    };
    let err = map_api_error(404, Some(payload(Some(false), Some("not_found"), Some("collection not found"))), raw);
    match err {
        Error::Api { status, code, message, raw } => {
            assert_eq!(404, status);
            assert_eq!(Some("not_found"), code.as_deref());
            assert_eq!("collection not found", message);
            assert!(raw.is_some());
        }
        other => panic!("unexpected error: {other:?}"),
    }
}

#[test]
fn api_error_without_payload_names_the_status() {
    let raw = match read_response(404, RateLimitInfo::default(), b"[1, 2]") {
        ResponseReply::ErrorBody(raw) => raw,
        other => panic!("unexpected reply: {other:?}"),
    };
    match map_api_error(404, None, raw) {
        Error::Api { message, code, .. } => {
            assert_eq!("request failed with status 404 Not Found", message);
            assert_eq!(None, code);
        }
        other => panic!("unexpected error: {other:?}"),
    }
}

#[test]
fn non_json_failures_and_successes() {
    match read_response(500, RateLimitInfo::default(), b"  oops \n") {
        ResponseReply::Failed(Error::Api { status, message, code, raw }) => {
            assert_eq!(500, status);
            assert_eq!(
                "request failed with status 500 Internal Server Error and non-json response: oops",
                message
            );
            assert!(code.is_none() && raw.is_none());
        }
        other => panic!("unexpected reply: {other:?}"),
    }
    match read_response(502, RateLimitInfo::default(), b"  ") {
        ResponseReply::Failed(Error::Api { message, .. }) => {
            assert_eq!("request failed with status 502 Bad Gateway", message);
        }
        other => panic!("unexpected reply: {other:?}"),
    }
    match read_response(200, RateLimitInfo::default(), b"<html>") {
        ResponseReply::Failed(Error::Deserialize(message)) => {
            assert_eq!("response is not valid json (status=200 OK): <html>", message);
        }
        other => panic!("unexpected reply: {other:?}"),
    }
}

#[test]
fn successful_json_and_empty_bodies_carry_data() {
    let info = parse_rate_limit(Some("10"), Some("9"), None);
    match read_response(200, info, br#"{"result": true}"#) {
        ResponseReply::Data { raw, meta } => {
            assert_eq!(info, meta.rate_limit);
            assert_eq!(Some(&serde_json::Value::Bool(true)), raw.get("result"));
        }
        other => panic!("unexpected reply: {other:?}"),
    }
    match read_response(204, info, b"") {
        ResponseReply::Data { raw, .. } => assert!(raw.is_null()),
        other => panic!("unexpected reply: {other:?}"),
    }
}

#[test]
fn data_errors_prefer_reported_failures() {
    let raw = serde_json::Value::Null;
    match data_error(200, Some(payload(Some(false), Some("bad"), None)), raw.clone(), "missing field".to_string()) {
        Error::Api { status, code, message, .. } => {
            assert_eq!(200, status);
            assert_eq!(Some("bad".to_string()), code);
            assert_eq!("request failed with status 200 OK", message);
        }
        other => panic!("unexpected error: {other:?}"),
    }
    match data_error(200, Some(payload(Some(true), Some("bad"), None)), raw.clone(), "missing field".to_string()) {
        Error::Deserialize(m) => assert_eq!("missing field", m),
        other => panic!("unexpected error: {other:?}"),
    }
    match data_error(200, Some(payload(Some(false), None, None)), raw, "missing field".to_string()) {
        Error::Deserialize(m) => assert_eq!("missing field", m),
        other => panic!("unexpected error: {other:?}"),
    }
}

#[test]
fn only_unauthorized_api_errors_are_refreshable() {
    let unauthorized = Error::Api { status: 401, code: None, message: String::new(), raw: None };
    let forbidden = Error::Api { status: 403, code: None, message: String::new(), raw: None };
    assert!(unauthorized.is_refreshable_auth_error());
    assert!(!forbidden.is_refreshable_auth_error());
    assert!(!Error::Auth("x".to_string()).is_refreshable_auth_error());
}

#[test]
fn token_requests_send_their_fields() {
    let exchange = TokenRequestBuilder::exchange_code("id", "secret", "abc");
    assert_eq!("https://raindrop.io/oauth/access_token", exchange.target());
    assert_eq!(
        vec![
            ("client_id".to_string(), "id".to_string()),
            ("client_secret".to_string(), "secret".to_string()),
            ("code".to_string(), "abc".to_string()),
            ("grant_type".to_string(), "authorization_code".to_string()),
        ],
        exchange.request().form_fields()
    );
    let exchange = exchange.redirect_uri("https://oauthdebugger.com/debug").oauth_url("http://localhost/token");
    assert_eq!("http://localhost/token", exchange.target());
    let fields = exchange.request().form_fields();
    assert_eq!(5, fields.len());
    assert_eq!(("redirect_uri".to_string(), "https://oauthdebugger.com/debug".to_string()), fields[3]);

    let refresh = TokenRequestBuilder::refresh("id", "secret", "r1");
    assert_eq!(GrantType::RefreshToken, refresh.request().grant_type);
    assert_eq!(
        vec![
            ("client_id".to_string(), "id".to_string()),
            ("client_secret".to_string(), "secret".to_string()),
            ("refresh_token".to_string(), "r1".to_string()),
            ("grant_type".to_string(), "refresh_token".to_string()),
        ],
        refresh.request().form_fields()
    );
}

#[test]
fn reads_token_replies() {
    match read_token_reply(400, "  ") {
        TokenReply::Failed(Error::Api { message, .. }) => {
            assert_eq!("oauth request failed with empty response", message)
        }
        other => panic!("unexpected reply: {other:?}"),
    }
    match read_token_reply(400, "nope") {
        TokenReply::Failed(Error::Api { message, .. }) => {
            assert_eq!("oauth request failed with non-json response: nope", message)
        }
        other => panic!("unexpected reply: {other:?}"),
    }
    match read_token_reply(400, r#"{"error": "invalid_grant"}"#) {
        TokenReply::ErrorBody { fallback, .. } => assert_eq!("oauth request failed", fallback),
        other => panic!("unexpected reply: {other:?}"),
    }
    match read_token_reply(200, r#"{"token_type": "bearer"}"#) {
        TokenReply::ErrorBody { fallback, .. } => {
            assert_eq!("oauth response missing access_token", fallback)
        }
        other => panic!("unexpected reply: {other:?}"),
    }
    match read_token_reply(200, r#"{"access_token": "t", "refresh_token": "r"}"#) {
        TokenReply::Token(raw) => assert!(raw.get("access_token").is_some()),
        other => panic!("unexpected reply: {other:?}"),
    }
    match read_token_reply(200, "<html>") {
        TokenReply::Failed(Error::Deserialize(message)) => {
            assert_eq!("oauth response is not valid json (status=200 OK): <html>", message)
        }
        other => panic!("unexpected reply: {other:?}"),
    }
}

#[test]
fn replies_keep_the_json_the_body_reads_as() {
    let body = br#"{"result": false, "error": "not_found", "errorMessage": "collection not found"}"#;
    let expected: serde_json::Value = serde_json::from_slice(body).unwrap();
    match read_response(404, RateLimitInfo::default(), body) {
        ResponseReply::ErrorBody(raw) => assert_eq!(expected, raw),
        other => panic!("unexpected reply: {other:?}"),
    }
    match read_response(404, RateLimitInfo::default(), b"") {
        ResponseReply::ErrorBody(raw) => assert_eq!(serde_json::Value::Null, raw),
        other => panic!("unexpected reply: {other:?}"),
    }
    let data = br#"{"item": {"_id": 5, "title": "x"}, "result": true}"#;
    match read_response(200, RateLimitInfo::default(), data) {
        ResponseReply::Data { raw, .. } => {
            assert_eq!(serde_json::from_slice::<serde_json::Value>(data).unwrap(), raw)
        }
        other => panic!("unexpected reply: {other:?}"),
    }
    let token = r#"{"access_token": "t", "refresh_token": "r", "expires_in": 3600}"#;
    match read_token_reply(200, token) {
        TokenReply::Token(raw) => {
            assert_eq!(serde_json::from_str::<serde_json::Value>(token).unwrap(), raw)
        }
        other => panic!("unexpected reply: {other:?}"),
    }
    let error = r#"{"error": "invalid_grant", "error_description": "expired"}"#;
    match read_token_reply(400, error) {
        TokenReply::ErrorBody { raw, .. } => {
            assert_eq!(serde_json::from_str::<serde_json::Value>(error).unwrap(), raw)
        }
        other => panic!("unexpected reply: {other:?}"),
    }
}

#[test]
fn oauth_errors_carry_code_and_message() {
    let parsed = Some(OauthErrorPayload {
        error: Some("invalid_grant".to_string()),
        message: None,
    });
    match oauth_api_error(400, parsed, serde_json::Value::Null, "oauth request failed") {
        Error::Api { status, code, message, raw } => {
            assert_eq!(400, status);
            assert_eq!(Some("invalid_grant".to_string()), code);
            assert_eq!("invalid_grant", message);
            assert!(raw.is_some());
        }
        other => panic!("unexpected error: {other:?}"),
    }
}

#[test]
fn client_settings_check_token_headers_and_base_url() {
    match client_settings(None, None, None) {
        Err(Error::Auth(m)) => assert_eq!("missing access token", m),
        other => panic!("unexpected: {other:?}"),
    }
    match client_settings(Some("bad\ntoken".to_string()), None, None) {
        Err(Error::Auth(m)) => assert_eq!("invalid bearer header: failed to parse header value", m),
        other => panic!("unexpected: {other:?}"),
    }
    match client_settings(Some("t".to_string()), None, Some("agent\u{7f}".to_string())) {
        Err(Error::Auth(m)) => {
            assert_eq!("invalid user-agent header: failed to parse header value", m)
        }
        other => panic!("unexpected: {other:?}"),
    }
    match client_settings(Some("t".to_string()), Some("not a url".to_string()), None) {
        Err(Error::Url(m)) => assert_eq!("relative URL without a base", m),
        other => panic!("unexpected: {other:?}"),
    }
    let settings = client_settings(Some("test-token".to_string()), None, None).unwrap();
    assert_eq!("Bearer test-token", settings.auth_header);
    assert_eq!("puddle/0.1.0", settings.user_agent);
    assert_eq!("https://api.raindrop.io/rest/v1/", settings.base_url.as_str());
    let url = request_url(&settings.base_url, "/user").unwrap();
    assert_eq!("https://api.raindrop.io/rest/v1/user", url.as_str());

    let local = client_settings(Some("t".to_string()), Some("  http://127.0.0.1:9000 ".to_string()), Some("me".to_string())).unwrap();
    assert_eq!("http://127.0.0.1:9000/", local.base_url.as_str());
    assert_eq!("me", local.user_agent);
    assert_eq!("a/b/", strip_leading_slashes("///a/b/"));
}

#[test]
fn base_url_is_kept_as_parsed_and_paths_resolve_against_it() {
    let settings = client_settings(Some("t".to_string()), Some("HTTP://Example.COM/api".to_string()), None).unwrap();
    assert_eq!("http://example.com/api/", settings.base_url);
    assert_eq!("http://example.com/api/user", request_url(&settings.base_url, "//user").unwrap());
    assert_eq!("http://example.com/x?y=1", request_url(&settings.base_url, "../x?y=1").unwrap());
    match request_url("not a url", "user") {
        Err(Error::Url(m)) => assert_eq!("relative URL without a base", m),
        other => panic!("unexpected: {other:?}"),
    }
}

#[test]
fn routes_use_wire_ids_and_singular_paths() {
    let list = raindrops_list(CollectionScope::Unsorted);
    assert_eq!((Method::Get, "raindrops/-1"), (list.method, list.path.as_str()));
    let trash = raindrops_list(CollectionScope::Trash);
    assert_eq!("raindrops/-99", trash.path);
    let all = raindrops_update_many(CollectionScope::All);
    assert_eq!((Method::Put, "raindrops/0"), (all.method, all.path.as_str()));
    let root = collection_get(CollectionScope::Unsorted);
    assert_eq!("collection/-1", root.path);
    assert_eq!("collection/999", collection_get(CollectionScope::Id(999)).path);
    assert_eq!("raindrop/55/cover", raindrop_upload_cover(55).path);
    assert_eq!("collection/99/cover", collection_upload_cover(99).path);
    assert_eq!("raindrop/314", raindrop_get(314).path);
    let rename = tags_rename(1);
    assert_eq!((Method::Put, "tags/1"), (rename.method, rename.path.as_str()));
    assert_eq!("user", user_me().path);
}

#[test]
fn encodes_query_params_for_raindrop_list() {
    let params = RaindropListParams::new()
        .search("rust")
        .sort("-created")
        .nested(true)
        .page(2)
        .per_page(PerPage::new(25).unwrap());
    let pairs: Vec<(String, String)> = params.query_pairs();
    let expected: Vec<(String, String)> = vec![
        ("page", "2"),
        ("perpage", "25"),
        ("search", "rust"),
        ("sort", "-created"),
        ("nested", "true"),
    ]
    .into_iter()
    .map(|(k, v)| (k.to_string(), v.to_string()))
    .collect();
    assert_eq!(expected, pairs);
    assert!(RaindropListParams::new().query_pairs().is_empty());
}

#[test]
fn update_many_ids_come_from_the_query_list() {
    assert_eq!(vec![10, 12], parse_id_list("10,12"));
    assert_eq!(vec![7, -3], parse_id_list(" 7 , x, -3,"));
    assert!(parse_id_list("").is_empty());

    let mut payload = UpdateManyRaindrops::new();
    payload.tags = Some(vec!["rust".to_string()]);
    let params = UpdateManyParams { ids: Some("10,12".to_string()) };
    assert_eq!(vec![10, 12], update_many_ids(&payload, Some(&params)));
    payload.ids = Some(vec![1, 2]);
    assert_eq!(vec![1, 2], update_many_ids(&payload, None));
    assert_eq!(vec![1, 2], update_many_ids(&payload, Some(&UpdateManyParams { ids: None })));
}

#[test]
fn id_lists_read_back() {
    let ids = vec![10i64, -3, 0, i64::MAX, i64::MIN];
    let text = ids.iter().map(|i| i.to_string()).collect::<Vec<_>>().join(",");
    assert_eq!(ids, parse_id_list(&text));
}
