//! The `setup` command's decisions: the address where the user authorizes
//! the app, the answers it accepts, and the settings that the token
//! exchange leaves.

use crate::auth::TokenResponse;
use crate::config::ConfigValues;
use crate::text::{is_blank, is_blank_str, joined, pair_texts, to_owned_string, trim, trimmed};
use vstd::prelude::*;

verus! {

/// Where the user authorizes an app.
pub open spec fn authorize_url_base() -> Seq<char> {
    "https://raindrop.io/oauth/authorize"@
}

/// The redirect URI that setup registers: a page that shows the code.
pub open spec fn oauth_debug_redirect_uri() -> Seq<char> {
    "https://oauthdebugger.com/debug"@
}

/// Where the user creates an app.
pub open spec fn integrations_uri() -> Seq<char> {
    "https://app.raindrop.io/settings/integrations"@
}

/// A byte that the form encoding writes as itself: `*`, `-`, `.`, `_`, an
/// ASCII digit or an ASCII letter.
pub open spec fn form_byte_unchanged(b: u8) -> bool {
    b == 42 || b == 45 || b == 46 || b == 95 || (48 <= b <= 57) || (65 <= b <= 90) || (97 <= b
        <= 122)
}

/// An upper-case hexadecimal digit.
pub open spec fn hex_upper(n: int) -> char {
    if n < 10 {
        (48 + n) as char
    } else {
        (55 + n) as char
    }
}

/// How the form encoding writes one byte: as itself, a space as `+`, and
/// any other byte as `%` and two upper-case hexadecimal digits.
pub open spec fn form_byte_text(b: u8) -> Seq<char> {
    if form_byte_unchanged(b) {
        seq![b as char]
    } else if b == 32 {
        seq!['+']
    } else {
        seq!['%', hex_upper(b as int / 16), hex_upper(b as int % 16)]
    }
}

/// The form encoding of a byte string, byte by byte.
pub open spec fn form_bytes_text(bytes: Seq<u8>) -> Seq<char>
    decreases bytes.len(),
{
    if bytes.len() == 0 {
        Seq::empty()
    } else {
        form_bytes_text(bytes.drop_last()) + form_byte_text(bytes.last())
    }
}

/// The form encoding of a text: of its UTF-8 bytes.
pub open spec fn form_component(text: Seq<char>) -> Seq<char> {
    form_bytes_text(vstd::utf8::encode_utf8(text))
}

/// The (name, value) pairs as an `application/x-www-form-urlencoded`
/// query: each written `name=value`, both encoded, joined by `&`.
pub open spec fn form_urlencoded(pairs: Seq<(Seq<char>, Seq<char>)>) -> Seq<char> {
    joined(
        pairs.map_values(
            |p: (Seq<char>, Seq<char>)| form_component(p.0) + "="@ + form_component(p.1),
        ),
        "&"@,
    )
}

/// The pairs written as an `application/x-www-form-urlencoded` query
/// (`url::form_urlencoded::Serializer::new` on an empty string,
/// `extend_pairs`, then `finish`): `extend_pairs` appends each pair as
/// `name=value`, with `&` before every pair but the first, and encodes
/// each text by `byte_serialize` of its UTF-8 bytes.
#[verifier::external_body]
fn form_encode(pairs: &Vec<(String, String)>) -> (r: String)
    ensures
        r@ == form_urlencoded(pair_texts(pairs@)),
{
    let mut serializer = url::form_urlencoded::Serializer::new(String::new());
    serializer.extend_pairs(pairs.iter());
    serializer.finish()
}

/// The query of the authorization address.
pub open spec fn authorize_query(client_id: Seq<char>, redirect_uri: Seq<char>) -> Seq<
    (Seq<char>, Seq<char>),
> {
    seq![
        ("response_type"@, "code"@),
        ("client_id"@, client_id),
        ("redirect_uri"@, redirect_uri),
    ]
}

/// The address where the user authorizes the app with this client id and
/// is sent back to `redirect_uri` with a code.
pub fn authorize_url(client_id: &str, redirect_uri: &str) -> (r: String)
    ensures
        r@ == authorize_url_base() + "?"@ + form_urlencoded(authorize_query(client_id@, redirect_uri@)),
{
    proof {
        reveal_strlit("response_type");
        reveal_strlit("code");
        reveal_strlit("client_id");
        reveal_strlit("redirect_uri");
    }
    let mut pairs: Vec<(String, String)> = Vec::new();
    pairs.push((to_owned_string("response_type"), to_owned_string("code")));
    pairs.push((to_owned_string("client_id"), to_owned_string(client_id)));
    pairs.push((to_owned_string("redirect_uri"), to_owned_string(redirect_uri)));
    assert(pair_texts(pairs@) =~= authorize_query(client_id@, redirect_uri@));
    let mut r = to_owned_string("https://raindrop.io/oauth/authorize");
    r.append("?");
    r.append(form_encode(&pairs).as_str());
    r
}

/// The redirect URI that setup registers.
pub fn default_redirect_uri() -> (r: String)
    ensures
        r@ == oauth_debug_redirect_uri(),
{
    to_owned_string("https://oauthdebugger.com/debug")
}

/// What setup says before it asks for anything.
pub open spec fn setup_intro_text() -> Seq<char> {
    "Create a new app at Raindrop integrations: "@ + integrations_uri() + "\n\nUse this redirect URI: "@
        + oauth_debug_redirect_uri()
}

/// What setup says before it asks for anything.
pub fn setup_intro() -> (r: String)
    ensures
        r@ == setup_intro_text(),
{
    let mut r = to_owned_string("Create a new app at Raindrop integrations: ");
    r.append("https://app.raindrop.io/settings/integrations");
    r.append("\n\nUse this redirect URI: ");
    r.append("https://oauthdebugger.com/debug");
    r
}

/// An answer to a prompt: the line without surrounding whitespace, unless
/// nothing is left.
pub fn prompt_answer(line: &str) -> (r: Option<String>)
    ensures
        is_blank(line@) ==> r is None,
        !is_blank(line@) ==> (r matches Some(s) && s@ == trimmed(line@)),
{
    if is_blank_str(line) {
        None
    } else {
        Some(trim(line))
    }
}

/// What a prompt says when its answer is empty.
pub fn required_notice(label: &str) -> (r: String)
    ensures
        r@ == label@ + " is required."@,
{
    let mut r = to_owned_string(label);
    r.append(" is required.");
    r
}

/// The settings that setup saves: the client it was given and the tokens
/// of the exchange, which must include a refresh token.
pub fn setup_values(
    client_id: String,
    client_secret: String,
    redirect_uri: String,
    token: TokenResponse,
) -> (r: Result<ConfigValues, String>)
    ensures
        token.refresh_token is None ==> (r matches Err(m) && m@
            == "missing refresh token in OAuth response"@),
        token.refresh_token matches Some(t) ==> (r matches Ok(v) && v.client_id == client_id
            && v.client_secret == client_secret && v.redirect_uri == redirect_uri && v.access_token
            == token.access_token && v.refresh_token == t),
{
    match token.refresh_token {
        Some(refresh_token) => Ok(
            ConfigValues {
                client_id,
                client_secret,
                redirect_uri,
                access_token: token.access_token,
                refresh_token,
            },
        ),
        None => Err(to_owned_string("missing refresh token in OAuth response")),
    }
}

} // verus!
