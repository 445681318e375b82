//! OAuth: the token requests that trade an authorization code or a refresh
//! token for an access token, and what their replies mean.

use crate::http::{is_success_status, opt_string_view, status_display, status_text, Error};
use crate::json::{json_has_field, json_object_keys, json_text_parse, json_text_value, parse_json_text};
use crate::text::{is_blank, is_blank_str, pair_texts, to_owned_string, trim, trimmed};
use vstd::prelude::*;

verus! {

/// Where token requests go unless told otherwise.
pub open spec fn default_oauth_url() -> Seq<char> {
    "https://raindrop.io/oauth/access_token"@
}

/// The grant that a token request asks for.
#[derive(Debug, Clone, Copy, PartialEq, Eq, Structural)]
pub enum GrantType {
    AuthorizationCode,
    RefreshToken,
}

pub open spec fn grant_name(g: GrantType) -> Seq<char> {
    match g {
        GrantType::AuthorizationCode => "authorization_code"@,
        GrantType::RefreshToken => "refresh_token"@,
    }
}

impl GrantType {
    /// The name that a token request sends for the grant.
    pub fn as_str(&self) -> (r: &'static str)
        ensures
            r@ == grant_name(*self),
    {
        match self {
            GrantType::AuthorizationCode => {
                proof {
                    reveal_strlit("authorization_code");
                }
                "authorization_code"
            },
            GrantType::RefreshToken => {
                proof {
                    reveal_strlit("refresh_token");
                }
                "refresh_token"
            },
        }
    }
}

fn field(name: &str, value: &str) -> (r: (String, String))
    ensures
        r.0@ == name@,
        r.1@ == value@,
{
    (to_owned_string(name), to_owned_string(value))
}

/// The request that trades an authorization code for tokens.
#[derive(Debug, Clone)]
pub struct ExchangeCodeRequest<'a> {
    pub client_id: &'a str,
    pub client_secret: &'a str,
    pub code: &'a str,
    pub redirect_uri: Option<&'a str>,
    pub grant_type: GrantType,
}

/// The fields that an exchange request sends, in order; the redirect URI
/// only where there is one.
pub open spec fn exchange_fields(r: ExchangeCodeRequest) -> Seq<(Seq<char>, Seq<char>)> {
    seq![
        ("client_id"@, r.client_id@),
        ("client_secret"@, r.client_secret@),
        ("code"@, r.code@),
    ] + match r.redirect_uri {
        Some(u) => seq![("redirect_uri"@, u@)],
        None => Seq::empty(),
    } + seq![("grant_type"@, grant_name(r.grant_type))]
}

impl<'a> ExchangeCodeRequest<'a> {
    /// The request as form fields.
    pub fn form_fields(&self) -> (r: Vec<(String, String)>)
        ensures
            pair_texts(r@) == exchange_fields(*self),
    {
        let mut r: Vec<(String, String)> = Vec::new();
        r.push(field("client_id", self.client_id));
        r.push(field("client_secret", self.client_secret));
        r.push(field("code", self.code));
        match self.redirect_uri {
            Some(u) => {
                r.push(field("redirect_uri", u));
            },
            None => {},
        }
        r.push(field("grant_type", self.grant_type.as_str()));
        proof {
            reveal_strlit("client_id");
            reveal_strlit("client_secret");
            reveal_strlit("code");
            reveal_strlit("redirect_uri");
            reveal_strlit("grant_type");
        }
        assert(pair_texts(r@) =~= exchange_fields(*self));
        r
    }
}

/// The request that trades a refresh token for a new access token.
#[derive(Debug, Clone)]
pub struct RefreshTokenRequest<'a> {
    pub client_id: &'a str,
    pub client_secret: &'a str,
    pub refresh_token: &'a str,
    pub grant_type: GrantType,
}

/// The fields that a refresh request sends, in order.
pub open spec fn refresh_fields(r: RefreshTokenRequest) -> Seq<(Seq<char>, Seq<char>)> {
    seq![
        ("client_id"@, r.client_id@),
        ("client_secret"@, r.client_secret@),
        ("refresh_token"@, r.refresh_token@),
        ("grant_type"@, grant_name(r.grant_type)),
    ]
}

impl<'a> RefreshTokenRequest<'a> {
    /// The request as form fields.
    pub fn form_fields(&self) -> (r: Vec<(String, String)>)
        ensures
            pair_texts(r@) == refresh_fields(*self),
    {
        let mut r: Vec<(String, String)> = Vec::new();
        r.push(field("client_id", self.client_id));
        r.push(field("client_secret", self.client_secret));
        r.push(field("refresh_token", self.refresh_token));
        r.push(field("grant_type", self.grant_type.as_str()));
        proof {
            reveal_strlit("client_id");
            reveal_strlit("client_secret");
            reveal_strlit("refresh_token");
            reveal_strlit("grant_type");
        }
        assert(pair_texts(r@) =~= refresh_fields(*self));
        r
    }
}

/// The tokens that a successful token request gives.
#[derive(Debug, Clone)]
pub struct TokenResponse {
    pub access_token: String,
    pub refresh_token: Option<String>,
    pub expires_in: Option<u64>,
    pub token_type: Option<String>,
}

/// The error fields of an OAuth reply; `message` is read from
/// `message`, `error_description` or `errorMessage`.
#[derive(Debug, Clone)]
pub struct OauthErrorPayload {
    pub error: Option<String>,
    pub message: Option<String>,
}

/// The message of an OAuth error reply: its message, else its error code,
/// else the fallback.
pub open spec fn oauth_message(parsed: Option<OauthErrorPayload>, fallback: Seq<char>) -> Seq<char> {
    match parsed {
        Some(p) => match p.message {
            Some(m) => m@,
            None => match p.error {
                Some(e) => e@,
                None => fallback,
            },
        },
        None => fallback,
    }
}

/// The message of an OAuth error reply: its message, else its error code,
/// else `fallback`.
pub fn oauth_error_message(parsed: &Option<OauthErrorPayload>, fallback: &str) -> (r: String)
    ensures
        r@ == oauth_message(*parsed, fallback@),
{
    match parsed {
        Some(p) => match &p.message {
            Some(m) => m.clone(),
            None => match &p.error {
                Some(e) => e.clone(),
                None => to_owned_string(fallback),
            },
        },
        None => to_owned_string(fallback),
    }
}

struct RequestContext<'a> {
    oauth_url: &'a str,
    client_id: &'a str,
    client_secret: &'a str,
}

/// Starts token requests.
pub struct TokenRequestBuilder;

/// A request that trades an authorization code for tokens, being built.
pub struct ExchangeCodeTokenRequestBuilder<'a> {
    context: RequestContext<'a>,
    code: &'a str,
    redirect_uri: Option<&'a str>,
}

/// A request that trades a refresh token for tokens, being built.
pub struct RefreshTokenRequestBuilder<'a> {
    context: RequestContext<'a>,
    refresh_token: &'a str,
}

impl TokenRequestBuilder {
    /// A request for tokens in exchange for an authorization code, sent to
    /// the default OAuth URL and with no redirect URI.
    pub fn exchange_code<'a>(client_id: &'a str, client_secret: &'a str, code: &'a str) -> (r:
        ExchangeCodeTokenRequestBuilder<'a>)
        ensures
            r.url()@ == default_oauth_url(),
            r.request_view() == (ExchangeCodeRequest {
                client_id,
                client_secret,
                code,
                redirect_uri: None,
                grant_type: GrantType::AuthorizationCode,
            }),
    {
        ExchangeCodeTokenRequestBuilder {
            context: RequestContext {
                oauth_url: "https://raindrop.io/oauth/access_token",
                client_id,
                client_secret,
            },
            code,
            redirect_uri: None,
        }
    }

    /// A request for a new access token in exchange for a refresh token,
    /// sent to the default OAuth URL.
    pub fn refresh<'a>(client_id: &'a str, client_secret: &'a str, refresh_token: &'a str) -> (r:
        RefreshTokenRequestBuilder<'a>)
        ensures
            r.url()@ == default_oauth_url(),
            r.request_view() == (RefreshTokenRequest {
                client_id,
                client_secret,
                refresh_token,
                grant_type: GrantType::RefreshToken,
            }),
    {
        RefreshTokenRequestBuilder {
            context: RequestContext {
                oauth_url: "https://raindrop.io/oauth/access_token",
                client_id,
                client_secret,
            },
            refresh_token,
        }
    }
}

impl<'a> ExchangeCodeTokenRequestBuilder<'a> {
    /// Where the request goes.
    pub closed spec fn url(self) -> &'a str {
        self.context.oauth_url
    }

    /// The request that will be sent.
    pub closed spec fn request_view(self) -> ExchangeCodeRequest<'a> {
        ExchangeCodeRequest {
            client_id: self.context.client_id,
            client_secret: self.context.client_secret,
            code: self.code,
            redirect_uri: self.redirect_uri,
            grant_type: GrantType::AuthorizationCode,
        }
    }

    /// Sends the request to `oauth_url` instead.
    pub fn oauth_url(self, oauth_url: &'a str) -> (r: Self)
        ensures
            r.url() == oauth_url,
            r.request_view() == self.request_view(),
    {
        let mut s = self;
        s.context.oauth_url = oauth_url;
        s
    }

    /// Sends `redirect_uri` with the request.
    pub fn redirect_uri(self, redirect_uri: &'a str) -> (r: Self)
        ensures
            r.url() == self.url(),
            r.request_view() == (ExchangeCodeRequest {
                redirect_uri: Some(redirect_uri),
                ..self.request_view()
            }),
    {
        let mut s = self;
        s.redirect_uri = Some(redirect_uri);
        s
    }

    /// Where the request goes.
    pub fn target(&self) -> (r: &'a str)
        ensures
            r == self.url(),
    {
        self.context.oauth_url
    }

    /// The request that will be sent.
    pub fn request(&self) -> (r: ExchangeCodeRequest<'a>)
        ensures
            r == self.request_view(),
    {
        ExchangeCodeRequest {
            client_id: self.context.client_id,
            client_secret: self.context.client_secret,
            code: self.code,
            redirect_uri: self.redirect_uri,
            grant_type: GrantType::AuthorizationCode,
        }
    }
}

impl<'a> RefreshTokenRequestBuilder<'a> {
    /// Where the request goes.
    pub closed spec fn url(self) -> &'a str {
        self.context.oauth_url
    }

    /// The request that will be sent.
    pub closed spec fn request_view(self) -> RefreshTokenRequest<'a> {
        RefreshTokenRequest {
            client_id: self.context.client_id,
            client_secret: self.context.client_secret,
            refresh_token: self.refresh_token,
            grant_type: GrantType::RefreshToken,
        }
    }

    /// Sends the request to `oauth_url` instead.
    pub fn oauth_url(self, oauth_url: &'a str) -> (r: Self)
        ensures
            r.url() == oauth_url,
            r.request_view() == self.request_view(),
    {
        let mut s = self;
        s.context.oauth_url = oauth_url;
        s
    }

    /// Where the request goes.
    pub fn target(&self) -> (r: &'a str)
        ensures
            r == self.url(),
    {
        self.context.oauth_url
    }

    /// The request that will be sent.
    pub fn request(&self) -> (r: RefreshTokenRequest<'a>)
        ensures
            r == self.request_view(),
    {
        RefreshTokenRequest {
            client_id: self.context.client_id,
            client_secret: self.context.client_secret,
            refresh_token: self.refresh_token,
            grant_type: GrantType::RefreshToken,
        }
    }
}

/// What a token reply leaves to do.
#[derive(Debug)]
pub enum TokenReply {
    /// The request failed; nothing else is to be read.
    Failed(Error),
    /// The reply is a JSON error: read it as an error payload and make the
    /// error with `oauth_api_error` and this fallback message.
    ErrorBody { raw: serde_json::Value, fallback: String },
    /// The reply is JSON with an access token: read the tokens from it.
    Token(serde_json::Value),
}

/// The message of a failed token request whose reply is not JSON.
pub open spec fn oauth_non_json_text(body: Seq<char>) -> Seq<char> {
    if is_blank(body) {
        "oauth request failed with empty response"@
    } else {
        "oauth request failed with non-json response: "@ + trimmed(body)
    }
}

/// The message of a successful token reply that is not JSON.
pub open spec fn oauth_invalid_json_text(status: u16, body: Seq<char>) -> Seq<char> {
    "oauth response is not valid json (status="@ + status_display(status as int) + "): "@
        + trimmed(body)
}

/// Reads a token reply: a failed status with a body that is not JSON, or a
/// successful one whose body is not JSON, ends the request with an error; a
/// JSON body of a failed status, or one without an `access_token`, is left
/// to be read as an error payload; the rest is left to be read as tokens.
pub fn read_token_reply(status: u16, body: &str) -> (r: TokenReply)
    requires
        100 <= status <= 999,
    ensures
        json_text_parse(body@) is None && !is_success_status(status) ==> (
        r matches TokenReply::Failed(Error::Api { status: s, code: None, message, raw: None })
            && s == status && message@ == oauth_non_json_text(body@)),
        json_text_parse(body@) is None && is_success_status(status) ==> (
        r matches TokenReply::Failed(Error::Deserialize(m)) && m@ == oauth_invalid_json_text(
            status,
            body@,
        )),
        json_text_parse(body@) is Some && !is_success_status(status) ==> (
        r matches TokenReply::ErrorBody { raw, fallback } && fallback@
            == "oauth request failed"@ && Some(raw) == json_text_value(body@) && json_object_keys(raw) == json_text_parse(
            body@,
        )->0),
        json_text_parse(body@) is Some && is_success_status(status) && !json_text_parse(
            body@,
        )->0.contains("access_token"@) ==> (r matches TokenReply::ErrorBody { raw, fallback }
            && fallback@ == "oauth response missing access_token"@ && Some(raw) == json_text_value(body@) && json_object_keys(raw)
            == json_text_parse(body@)->0),
        json_text_parse(body@) is Some && is_success_status(status) && json_text_parse(
            body@,
        )->0.contains("access_token"@) ==> (r matches TokenReply::Token(raw) && Some(raw) == json_text_value(body@) && json_object_keys(
            raw,
        ) == json_text_parse(body@)->0),
{
    proof {
        reveal_strlit("access_token");
        reveal_strlit("oauth request failed");
        reveal_strlit("oauth response missing access_token");
        reveal_strlit("oauth request failed with empty response");
    }
    let parsed = parse_json_text(body);
    let success = 200 <= status && status < 300;
    match parsed {
        Some(raw) => if !success {
            TokenReply::ErrorBody { raw, fallback: to_owned_string("oauth request failed") }
        } else if !json_has_field(&raw, "access_token") {
            TokenReply::ErrorBody {
                raw,
                fallback: to_owned_string("oauth response missing access_token"),
            }
        } else {
            TokenReply::Token(raw)
        },
        None => if !success {
            let message = if is_blank_str(body) {
                to_owned_string("oauth request failed with empty response")
            } else {
                let mut m = to_owned_string("oauth request failed with non-json response: ");
                m.append(trim(body).as_str());
                m
            };
            TokenReply::Failed(Error::Api { status, code: None, message, raw: None })
        } else {
            let mut m = to_owned_string("oauth response is not valid json (status=");
            m.append(status_text(status).as_str());
            m.append("): ");
            m.append(trim(body).as_str());
            TokenReply::Failed(Error::Deserialize(m))
        },
    }
}

/// The error for an OAuth error reply with status `status`, whose JSON
/// body `raw` reads as `parsed` (if at all): its error code, and its
/// message, else its code, else `fallback`.
pub fn oauth_api_error(
    status: u16,
    parsed: Option<OauthErrorPayload>,
    raw: serde_json::Value,
    fallback: &str,
) -> (r: Error)
    ensures
        r matches Error::Api { status: s, code, message, raw: Some(v) } && s == status
            && opt_string_view(code) == match parsed {
            Some(p) => opt_string_view(p.error),
            None => None,
        } && message@ == oauth_message(parsed, fallback@) && v == raw,
{
    let message = oauth_error_message(&parsed, fallback);
    let code = match parsed {
        Some(p) => p.error,
        None => None,
    };
    Error::Api { status, code, message, raw: Some(raw) }
}

} // verus!
