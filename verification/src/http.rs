//! What the API's replies mean: rate-limit headers, status codes, error
//! payloads, and the decision whether a reply carries data or an error.

use crate::json::{json_bytes_parse, json_bytes_value, json_null, json_null_value, json_object_keys, parse_json_bytes};
use crate::text::{
    is_blank, is_blank_str, nat_text, parse_i64, parse_i64_spec, parse_u32, parse_u32_spec,
    to_owned_string, trim, trimmed,
};
use chrono::TimeZone;
use vstd::prelude::*;

verus! {

/// The rate limit that the API reports with each reply.
#[derive(Debug, Clone, Copy, PartialEq, Eq, Structural)]
pub struct RateLimitInfo {
    pub limit: Option<u32>,
    pub remaining: Option<u32>,
    /// When the window resets, in seconds since the Unix epoch (UTC).
    pub reset_at: Option<i64>,
}

impl Default for RateLimitInfo {
    fn default() -> (r: Self)
        ensures
            r == (RateLimitInfo { limit: None, remaining: None, reset_at: None }),
    {
        RateLimitInfo { limit: None, remaining: None, reset_at: None }
    }
}

/// The error fields of an API reply, as far as the reply has them.
#[derive(Debug, Clone)]
pub struct ApiErrorPayload {
    pub result: Option<bool>,
    pub error: Option<String>,
    pub error_message: Option<String>,
    pub message: Option<String>,
}

/// What can go wrong when talking to the API.
#[derive(Debug)]
pub enum Error {
    /// The request could not be sent or its reply not received.
    Http(String),
    /// The API answered with an error.
    Api {
        status: u16,
        code: Option<String>,
        message: String,
        raw: Option<serde_json::Value>,
    },
    /// A reply could not be read.
    Deserialize(String),
    /// The credentials cannot be used.
    Auth(String),
    /// The API refused the request for its rate limit.
    RateLimited { rate_limit: RateLimitInfo },
    /// A reply had an unexpected shape.
    UnexpectedResponse(String),
    /// A URL could not be formed.
    Url(String),
}

impl Error {
    /// An error that a fresh access token may cure: the API answered 401.
    pub fn is_refreshable_auth_error(&self) -> (r: bool)
        ensures
            r == (self matches Error::Api { status, .. } && status == 401),
    {
        match self {
            Error::Api { status, .. } => *status == 401,
            _ => false,
        }
    }
}

/// The metadata that comes with a reply.
#[derive(Debug, Clone, Copy)]
pub struct ResponseMetadata {
    pub rate_limit: RateLimitInfo,
}

/// A reply's data with its metadata.
#[derive(Debug, Clone)]
pub struct Response<T> {
    pub data: T,
    pub meta: ResponseMetadata,
}

/// A status in 200..=299.
pub open spec fn is_success_status(status: u16) -> bool {
    200 <= status && status < 300
}

/// How `reqwest::StatusCode` shows a status (its `Display`).
pub uninterp spec fn status_display(status: int) -> Seq<char>;

/// A status as `reqwest::StatusCode` shows it, such as `404 Not Found`.
#[verifier::external_body]
pub(crate) fn status_text(status: u16) -> (r: String)
    requires
        100 <= status <= 999,
    ensures
        r@ == status_display(status as int),
{
    match reqwest::StatusCode::from_u16(status) {
        Ok(code) => code.to_string(),
        Err(_) => String::new(),
    }
}

/// Whether a Unix time in seconds is one that `chrono` can hold as a UTC
/// date and time: from -262143-01-01 00:00:00 to +262142-12-31 23:59:59.
pub open spec fn utc_timestamp_exists(secs: int) -> bool {
    -8_334_601_228_800 <= secs <= 8_210_266_876_799
}

/// Whether `chrono::Utc.timestamp_opt(secs, 0)` gives a single date and time
/// (`DateTime::from_timestamp` holds dates from the year -262143 through
/// 262142, and any second of the day).
#[verifier::external_body]
fn utc_timestamp_valid(secs: i64) -> (r: bool)
    ensures
        r == utc_timestamp_exists(secs as int),
{
    chrono::Utc.timestamp_opt(secs, 0).single().is_some()
}

/// How `String::from_utf8_lossy` reads bytes.
pub uninterp spec fn utf8_lossy(bytes: Seq<u8>) -> Seq<char>;

/// The bytes read as UTF-8, bad sequences replaced (`String::from_utf8_lossy`).
#[verifier::external_body]
fn lossy_text(bytes: &[u8]) -> (r: String)
    ensures
        r@ == utf8_lossy(bytes@),
{
    String::from_utf8_lossy(bytes).into_owned()
}

pub open spec fn opt_u32_header(v: Option<&str>) -> Option<u32> {
    match v {
        Some(t) => parse_u32_spec(t@),
        None => None,
    }
}

pub open spec fn reset_header(v: Option<&str>) -> Option<i64> {
    match v {
        Some(t) => match parse_i64_spec(t@) {
            Some(secs) => if utc_timestamp_exists(secs as int) {
                Some(secs)
            } else {
                None
            },
            None => None,
        },
        None => None,
    }
}

fn header_u32(v: Option<&str>) -> (r: Option<u32>)
    ensures
        r == opt_u32_header(v),
{
    match v {
        Some(t) => parse_u32(t),
        None => None,
    }
}

/// The rate limit that the `x-ratelimit-limit`, `x-ratelimit-remaining` and
/// `x-ratelimit-reset` headers give, each where it is present and reads as
/// a number (the reset time only where it is a UTC time that can be held).
pub fn parse_rate_limit(limit: Option<&str>, remaining: Option<&str>, reset: Option<&str>) -> (r:
    RateLimitInfo)
    ensures
        r.limit == opt_u32_header(limit),
        r.remaining == opt_u32_header(remaining),
        r.reset_at == reset_header(reset),
{
    let reset_at = match reset {
        Some(t) => match parse_i64(t) {
            Some(secs) => if utc_timestamp_valid(secs) {
                Some(secs)
            } else {
                None
            },
            None => None,
        },
        None => None,
    };
    RateLimitInfo { limit: header_u32(limit), remaining: header_u32(remaining), reset_at }
}

/// The message of a failed request whose reply holds no error text.
pub open spec fn status_failure_text(status: u16) -> Seq<char> {
    "request failed with status "@ + status_display(status as int)
}

/// The message that an API error payload gives, or the status failure text.
pub open spec fn api_error_message(status: u16, parsed: Option<ApiErrorPayload>) -> Seq<char> {
    match parsed {
        Some(p) => match p.error_message {
            Some(m) => m@,
            None => match p.message {
                Some(m) => m@,
                None => status_failure_text(status),
            },
        },
        None => status_failure_text(status),
    }
}

pub open spec fn opt_string_view(o: Option<String>) -> Option<Seq<char>> {
    match o {
        Some(s) => Some(s@),
        None => None,
    }
}

/// The error code that an API error payload gives.
pub open spec fn api_error_code(parsed: Option<ApiErrorPayload>) -> Option<Seq<char>> {
    match parsed {
        Some(p) => opt_string_view(p.error),
        None => None,
    }
}

fn copy_opt(o: &Option<String>) -> (r: Option<String>)
    ensures
        opt_string_view(r) == opt_string_view(*o),
{
    match o {
        Some(s) => Some(s.clone()),
        None => None,
    }
}

/// The API error that a reply with status `status`, whose JSON body `raw`
/// reads as `parsed` (if it reads as an error payload at all), stands for.
pub fn map_api_error(status: u16, parsed: Option<ApiErrorPayload>, raw: serde_json::Value) -> (r:
    Error)
    requires
        100 <= status <= 999,
    ensures
        r matches Error::Api { status: s, code, message, raw: Some(v) } && s == status
            && opt_string_view(code) == api_error_code(parsed) && message@ == api_error_message(
            status,
            parsed,
        ) && v == raw,
{
    let code = match &parsed {
        Some(p) => copy_opt(&p.error),
        None => None,
    };
    let message = match &parsed {
        Some(p) => match &p.error_message {
            Some(m) => m.clone(),
            None => match &p.message {
                Some(m) => m.clone(),
                None => {
                    let mut m = to_owned_string("request failed with status ");
                    m.append(status_text(status).as_str());
                    m
                },
            },
        },
        None => {
            let mut m = to_owned_string("request failed with status ");
            m.append(status_text(status).as_str());
            m
        },
    };
    Error::Api { status, code, message, raw: Some(raw) }
}

/// A payload that says the request failed (`result` is `false`) and why.
pub open spec fn reports_failure(p: ApiErrorPayload) -> bool {
    p.result == Some(false) && (p.error is Some || p.error_message is Some || p.message is Some)
}

/// The error for a successful reply whose data could not be read: the API
/// error that the body reports, where it reports one, else the reading
/// error `message`.
pub fn data_error(status: u16, parsed: Option<ApiErrorPayload>, raw: serde_json::Value, message: String) -> (r: Error)
    requires
        100 <= status <= 999,
    ensures
        match parsed {
            Some(p) => if reports_failure(p) {
                r matches Error::Api { status: s, code, message: m, raw: Some(v) } && s == status
                    && opt_string_view(code) == api_error_code(parsed) && m@
                    == api_error_message(status, parsed) && v == raw
            } else {
                r matches Error::Deserialize(m) && m@ == message@
            },
            None => r matches Error::Deserialize(m) && m@ == message@,
        },
{
    let failed = match &parsed {
        Some(p) => {
            let is_false = match p.result {
                Some(b) => !b,
                None => false,
            };
            is_false && (p.error.is_some() || p.error_message.is_some() || p.message.is_some())
        },
        None => false,
    };
    if failed {
        map_api_error(status, parsed, raw)
    } else {
        Error::Deserialize(message)
    }
}

/// What a reply's status and body leave to do.
#[derive(Debug)]
pub enum ResponseReply {
    /// The request failed; nothing else is to be read.
    Failed(Error),
    /// The request failed and the body is JSON: read it as an error payload
    /// and make the error with `map_api_error`.
    ErrorBody(serde_json::Value),
    /// The request succeeded and the body is JSON: read the data from it
    /// (an empty body counts as `null`).
    Data { raw: serde_json::Value, meta: ResponseMetadata },
}

/// The body of a reply is JSON: an empty body counts as `null`.
pub open spec fn body_is_json(body: Seq<u8>) -> bool {
    body.len() == 0 || json_bytes_parse(body) is Some
}

/// The JSON value of a body: `null` for an empty body, else the value the
/// bytes read as.
pub open spec fn body_value(body: Seq<u8>) -> serde_json::Value {
    if body.len() == 0 {
        json_null_value()
    } else {
        json_bytes_value(body)->0
    }
}

/// The top-level field names of a JSON body: none for an empty body
/// (`null`), else those of the value the bytes read as.
pub open spec fn body_keys(body: Seq<u8>) -> Set<Seq<char>> {
    if body.len() == 0 {
        Set::empty()
    } else {
        json_bytes_parse(body)->0
    }
}

/// The message of a failed request whose body is not JSON.
pub open spec fn non_json_failure_text(status: u16, text: Seq<char>) -> Seq<char> {
    if is_blank(text) {
        status_failure_text(status)
    } else {
        status_failure_text(status) + " and non-json response: "@ + trimmed(text)
    }
}

/// The message of a successful reply whose body is not JSON.
pub open spec fn invalid_json_text(status: u16, text: Seq<char>) -> Seq<char> {
    "response is not valid json (status="@ + status_display(status as int) + "): "@ + trimmed(text)
}

/// Reads a reply's status and body: a 429 is a rate-limit error; a body
/// that is not JSON ends the request with an error (an API error for a
/// failed status, a reading error for a successful one); otherwise the JSON
/// body is left to be read as an error payload or as data.
pub fn read_response(status: u16, rate_limit: RateLimitInfo, body: &[u8]) -> (r: ResponseReply)
    requires
        100 <= status <= 999,
    ensures
        status == 429 ==> (r matches ResponseReply::Failed(Error::RateLimited { rate_limit: l })
            && l == rate_limit),
        status != 429 && !body_is_json(body@) && !is_success_status(status) ==> (
        r matches ResponseReply::Failed(Error::Api { status: s, code: None, message, raw: None })
            && s == status && message@ == non_json_failure_text(status, utf8_lossy(body@))),
        status != 429 && !body_is_json(body@) && is_success_status(status) ==> (
        r matches ResponseReply::Failed(Error::Deserialize(m)) && m@ == invalid_json_text(
            status,
            utf8_lossy(body@),
        )),
        status != 429 && body_is_json(body@) && !is_success_status(status) ==> (
        r matches ResponseReply::ErrorBody(raw) && raw == body_value(body@) && json_object_keys(raw)
            == body_keys(body@)),
        status != 429 && body_is_json(body@) && is_success_status(status) ==> (
        r matches ResponseReply::Data { raw, meta } && raw == body_value(body@) && json_object_keys(
            raw,
        ) == body_keys(body@)
            && meta.rate_limit == rate_limit),
{
    if status == 429 {
        return ResponseReply::Failed(Error::RateLimited { rate_limit });
    }
    let text = lossy_text(body);
    let raw = if body.len() == 0 {
        Some(json_null())
    } else {
        parse_json_bytes(body)
    };
    let success = 200 <= status && status < 300;
    match raw {
        Some(v) => if success {
            ResponseReply::Data { raw: v, meta: ResponseMetadata { rate_limit } }
        } else {
            ResponseReply::ErrorBody(v)
        },
        None => {
            let mut m = if success {
                to_owned_string("response is not valid json (status=")
            } else {
                to_owned_string("request failed with status ")
            };
            m.append(status_text(status).as_str());
            if success {
                m.append("): ");
                m.append(trim(text.as_str()).as_str());
                ResponseReply::Failed(Error::Deserialize(m))
            } else {
                if !is_blank_str(text.as_str()) {
                    m.append(" and non-json response: ");
                    m.append(trim(text.as_str()).as_str());
                }
                ResponseReply::Failed(Error::Api { status, code: None, message: m, raw: None })
            }
        },
    }
}

} // verus!
