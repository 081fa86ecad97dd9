//! The links of the OAuth authorization-code flow that yields the access token.
use vstd::prelude::*;
use vstd::string::*;
use vstd::utf8::encode_utf8;
use crate::common::SetupContext;

verus! {

/// The page where the account holder grants this client access.
pub const BUNQ_OAUTH_GRANT_PAGE_URL: &'static str = "https://oauth.bunq.com/auth";

/// The endpoint that exchanges an authorization code for an access token.
pub const BUNQ_TOKEN_ENDPOINT: &'static str = "https://api.oauth.bunq.com/v1/token";

/// Where the grant page sends the account holder back to.
pub const REDIRECT_URI: &'static str = "http://127.0.0.1:5454";

/// The URL `base` with `pairs` appended to its query, form-urlencoded, where
/// `base` reads as a URL.
pub uninterp spec fn url_with_query(base: Seq<char>, pairs: Seq<(Seq<char>, Seq<char>)>) -> Option<Seq<char>>;

pub open spec fn pairs_view(pairs: Seq<(&str, &str)>) -> Seq<(Seq<char>, Seq<char>)> {
    pairs.map_values(|p: (&str, &str)| (p.0@, p.1@))
}

/// Relies on url::Url::parse, Url::query_pairs_mut with extend_pairs, and the
/// conversion of a Url into its serialization.
#[verifier::external_body]
fn append_query(base: &str, pairs: &Vec<(&str, &str)>) -> (r: Option<String>)
    ensures
        r matches Some(u) ==> url_with_query(base@, pairs_view(pairs@)) == Some(u@),
        r is None ==> url_with_query(base@, pairs_view(pairs@)) is None,
{
    let mut url = url::Url::parse(base).ok()?;
    url.query_pairs_mut().extend_pairs(pairs.iter());
    Some(url.into())
}

/// The query of the grant page: a code is asked for, for this client, to be
/// sent back to the redirect address.
pub open spec fn auth_query(client_id: Seq<char>) -> Seq<(Seq<char>, Seq<char>)> {
    seq![
        ("response_type"@, "code"@),
        ("client_id"@, client_id),
        ("redirect_uri"@, REDIRECT_URI@),
    ]
}

/// The grant page's URL for the OAuth client of `setup_context`.
pub fn create_auth_url(setup_context: &SetupContext) -> (r: Option<String>)
    ensures
        r matches Some(u) ==> url_with_query(BUNQ_OAUTH_GRANT_PAGE_URL@, auth_query(setup_context.client_id@)) == Some(u@),
        r is None ==> url_with_query(BUNQ_OAUTH_GRANT_PAGE_URL@, auth_query(setup_context.client_id@)) is None,
{
    let pairs = vec![
        ("response_type", "code"),
        ("client_id", setup_context.client_id.as_str()),
        ("redirect_uri", REDIRECT_URI),
    ];
    assert(pairs_view(pairs@) =~= auth_query(setup_context.client_id@));
    append_query(BUNQ_OAUTH_GRANT_PAGE_URL, &pairs)
}

/// Whether a pasted authorization code is long enough to be one: four bytes
/// of UTF-8 at least.
pub fn is_plausible_code(code: &str) -> (r: bool)
    ensures
        r == (encode_utf8(code@).len() >= 4),
{
    code.as_bytes().len() >= 4
}

} // verus!
