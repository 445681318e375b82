//! The settings of an API client: its `Authorization` and `User-Agent`
//! headers and the base URL that request paths are joined to.

use crate::http::Error;
use crate::text::{to_owned_string, trim, trimmed};
use vstd::prelude::*;
use vstd::string::*;

verus! {

/// The API's base URL unless another is given.
pub open spec fn default_base_url() -> Seq<char> {
    "https://api.raindrop.io/rest/v1"@
}

/// The `User-Agent` sent unless another is given.
pub open spec fn default_user_agent() -> Seq<char> {
    "puddle/0.1.0"@
}

/// A character that an HTTP header value may hold: a tab, or anything but
/// an ASCII control character.
pub open spec fn header_char_ok(c: char) -> bool {
    c == '\t' || (32 <= (c as u32) && (c as u32) != 127)
}

pub open spec fn header_text_ok(s: Seq<char>) -> bool {
    forall|i: int| 0 <= i < s.len() ==> header_char_ok(#[trigger] s[i])
}

/// Checks a text as an HTTP header value
/// (`reqwest::header::HeaderValue::from_str`): every byte must be a tab or
/// at least 32 and not 127, which for a text means that every character is
/// a tab or no ASCII control character. The error shows as
/// `failed to parse header value`.
#[verifier::external_body]
fn check_header_value(s: &str) -> (r: Result<(), String>)
    ensures
        r is Ok <==> header_text_ok(s@),
        r matches Err(m) ==> m@ == "failed to parse header value"@,
{
    match reqwest::header::HeaderValue::from_str(s) {
        Ok(_) => Ok(()),
        Err(e) => Err(e.to_string()),
    }
}

/// What `url::Url::parse` makes of a text: the serialization of the URL
/// it reads as (`Url::as_str`), or the message of its error.
pub uninterp spec fn url_parse(text: Seq<char>) -> Result<Seq<char>, Seq<char>>;

/// Reads a text as a URL (`url::Url::parse`) and gives back its
/// serialization, or the error's message; both are what `url_parse` names.
#[verifier::external_body]
fn parse_url(text: &str) -> (r: Result<String, String>)
    ensures
        match url_parse(text@) {
            Ok(t) => r matches Ok(s) && s@ == t,
            Err(m) => r matches Err(e) && e@ == m,
        },
{
    match url::Url::parse(text) {
        Ok(u) => Ok(u.as_str().to_string()),
        Err(e) => Err(e.to_string()),
    }
}

/// What `url::Url::join` makes of a relative reference against the base URL
/// that a text parses to: the serialization of the joined URL, or the
/// message of the error (that of reading the base, or of joining).
pub uninterp spec fn url_join(base: Seq<char>, rel: Seq<char>) -> Result<Seq<char>, Seq<char>>;

/// Resolves a relative reference against a base URL given by its text
/// (`url::Url::parse` on the base, then `url::Url::join`), giving back the
/// serialization of the result or the error's message, as `url_join` names.
#[verifier::external_body]
fn join_url(base: &str, rel: &str) -> (r: Result<String, String>)
    ensures
        match url_join(base@, rel@) {
            Ok(t) => r matches Ok(s) && s@ == t,
            Err(m) => r matches Err(e) && e@ == m,
        },
{
    let joined = match url::Url::parse(base) {
        Ok(b) => b.join(rel),
        Err(e) => Err(e),
    };
    match joined {
        Ok(u) => Ok(u.as_str().to_string()),
        Err(e) => Err(e.to_string()),
    }
}

/// What a client sends with every request, and where: the base URL is kept
/// as its serialization.
#[derive(Debug)]
pub struct ClientSettings {
    pub base_url: String,
    pub auth_header: String,
    pub user_agent: String,
}

/// The `Authorization` header for an access token.
pub open spec fn bearer_text(token: Seq<char>) -> Seq<char> {
    "Bearer "@ + token
}

pub open spec fn opt_text_or(v: Option<String>, fallback: Seq<char>) -> Seq<char> {
    match v {
        Some(s) => s@,
        None => fallback,
    }
}

/// The base URL as it is parsed: trimmed, and ending in `/` so that paths
/// are joined below it.
pub open spec fn base_url_text(base: Option<String>) -> Seq<char> {
    let b = trimmed(opt_text_or(base, default_base_url()));
    if b.len() > 0 && b.last() == '/' {
        b
    } else {
        b + "/"@
    }
}

/// The settings of a client with this access token, base URL and user
/// agent (the defaults where none is given): an access token is needed, the
/// two headers must be valid header values, and the base URL must parse.
pub fn client_settings(
    access_token: Option<String>,
    base_url: Option<String>,
    user_agent: Option<String>,
) -> (r: Result<ClientSettings, Error>)
    ensures
        access_token is None ==> (r matches Err(Error::Auth(m)) && m@ == "missing access token"@),
        access_token is Some && !header_text_ok(bearer_text(access_token->0@)) ==> (r matches Err(
            Error::Auth(m),
        ) && m@ == "invalid bearer header: failed to parse header value"@),
        access_token is Some && header_text_ok(bearer_text(access_token->0@)) && !header_text_ok(
            opt_text_or(user_agent, default_user_agent()),
        ) ==> (r matches Err(Error::Auth(m)) && m@
            == "invalid user-agent header: failed to parse header value"@),
        access_token is Some && header_text_ok(bearer_text(access_token->0@)) && header_text_ok(
            opt_text_or(user_agent, default_user_agent()),
        ) ==> match url_parse(base_url_text(base_url)) {
            Err(m) => r matches Err(Error::Url(e)) && e@ == m,
            Ok(t) => r matches Ok(s) && s.base_url@ == t && s.auth_header@ == bearer_text(
                access_token->0@,
            ) && s.user_agent@ == opt_text_or(user_agent, default_user_agent()),
        },
{
    proof {
        reveal_strlit("missing access token");
        reveal_strlit("Bearer ");
        reveal_strlit("/");
        reveal_strlit("invalid bearer header: ");
        reveal_strlit("invalid user-agent header: ");
        reveal_strlit("failed to parse header value");
        reveal_strlit("invalid bearer header: failed to parse header value");
        reveal_strlit("invalid user-agent header: failed to parse header value");
    }
    let token = match access_token {
        Some(t) => t,
        None => {
            return Err(Error::Auth(to_owned_string("missing access token")));
        },
    };
    let mut bearer = to_owned_string("Bearer ");
    bearer.append(token.as_str());
    match check_header_value(bearer.as_str()) {
        Ok(()) => {},
        Err(e) => {
            let mut m = to_owned_string("invalid bearer header: ");
            m.append(e.as_str());
            assert(m@ =~= "invalid bearer header: failed to parse header value"@);
            return Err(Error::Auth(m));
        },
    }
    let ua = match user_agent {
        Some(u) => u,
        None => to_owned_string("puddle/0.1.0"),
    };
    match check_header_value(ua.as_str()) {
        Ok(()) => {},
        Err(e) => {
            let mut m = to_owned_string("invalid user-agent header: ");
            m.append(e.as_str());
            assert(m@ =~= "invalid user-agent header: failed to parse header value"@);
            return Err(Error::Auth(m));
        },
    }
    let base = match &base_url {
        Some(b) => trim(b.as_str()),
        None => trim("https://api.raindrop.io/rest/v1"),
    };
    let n = base.as_str().unicode_len();
    let ends_with_slash = n > 0 && base.as_str().get_char(n - 1) == '/';
    let mut text = base;
    if !ends_with_slash {
        text.append("/");
    }
    assert(text@ == base_url_text(base_url));
    match parse_url(text.as_str()) {
        Ok(u) => Ok(ClientSettings { base_url: u, auth_header: bearer, user_agent: ua }),
        Err(m) => Err(Error::Url(m)),
    }
}

/// The path with its leading slashes taken off.
pub open spec fn relative_path(path: Seq<char>) -> Seq<char>
    decreases path.len(),
{
    if path.len() > 0 && path[0] == '/' {
        relative_path(path.drop_first())
    } else {
        path
    }
}

/// The path with its leading slashes taken off.
pub fn strip_leading_slashes(path: &str) -> (r: &str)
    ensures
        r@ == relative_path(path@),
{
    let n = path.unicode_len();
    let mut i: usize = 0;
    assert(path@.subrange(0, n as int) =~= path@);
    while i < n && path.get_char(i) == '/'
        invariant
            0 <= i <= n,
            n == path@.len(),
            relative_path(path@) == relative_path(path@.subrange(i as int, n as int)),
        decreases n - i,
    {
        assert(path@.subrange(i as int, n as int).drop_first() =~= path@.subrange(
            i + 1,
            n as int,
        ));
        i = i + 1;
    }
    path.substring_char(i, n)
}

/// The URL of a request: the path, without leading slashes, joined to the
/// base URL (given by its serialization); a failure to join is a URL error
/// with the message of `url::Url::join`.
pub fn request_url(base: &str, path: &str) -> (r: Result<String, Error>)
    ensures
        match url_join(base@, relative_path(path@)) {
            Ok(t) => r matches Ok(s) && s@ == t,
            Err(m) => r matches Err(Error::Url(e)) && e@ == m,
        },
{
    match join_url(base, strip_leading_slashes(path)) {
        Ok(u) => Ok(u),
        Err(m) => Err(Error::Url(m)),
    }
}

} // verus!
