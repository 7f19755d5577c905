//! The OAuth 2.0 authorization flow of itch.io, with PKCE.
pub mod code_verifier;
pub mod uuid;

use vstd::prelude::*;
use vstd::string::StringExecFns;
use crate::itch_api::oauth::code_verifier::{spec_challenge, url_safe_text, CodeVerifier};

verus! {

/// What `url::Url::parse_with_params` gives, written out with `to_string`,
/// for the address `base` and the query pairs `params`, when it succeeds.
pub uninterp spec fn spec_url_with_params(base: Seq<char>, params: Seq<(Seq<char>, Seq<char>)>) -> Seq<char>;

/// The texts of query pairs.
pub open spec fn pairs_view(params: Seq<(String, String)>) -> Seq<(Seq<char>, Seq<char>)> {
    params.map_values(|p: (String, String)| (p.0@, p.1@))
}

/// The itch.io OAuth 2.0 authorization endpoint.
pub open spec fn oauth_endpoint() -> Seq<char> {
    "https://itch.io/user/oauth"@
}

/// Adds the query pairs `params` to the address `base` with
/// `url::Url::parse_with_params` (through `reqwest::Url`) and writes the
/// result out. The contract claims that the text depends on the arguments
/// alone, and that the parse succeeds for the itch.io authorization
/// endpoint, a valid absolute address.
#[verifier::external_body]
fn url_with_params(base: &str, params: &Vec<(String, String)>) -> (r: Option<String>)
    ensures
        r matches Some(u) ==> u@ == spec_url_with_params(base@, pairs_view(params@)),
        r is Some || base@ != oauth_endpoint(),
{
    match reqwest::Url::parse_with_params(base, params.iter()) {
        Ok(u) => Some(u.to_string()),
        Err(_) => None,
    }
}

/// The authorization address to open in a browser, and the code verifier
/// that the token exchange needs once the user has authorized.
pub struct OAuthRequest {
    pub url: String,
    pub code_verifier: CodeVerifier,
}

/// The query pairs of an authorization request whose code challenge is
/// `challenge`.
pub open spec fn oauth_params(challenge: Seq<char>) -> Seq<(Seq<char>, Seq<char>)> {
    seq![
        ("client_id"@, "85252daf268d27fbefac93e1ac462bfd"@),
        ("response_type"@, "code"@),
        ("scope"@, "itch"@),
        ("redirect_uri"@, "itch://oauth-callback"@),
        ("code_challenge_method"@, "S256"@),
        ("code_challenge"@, challenge),
    ]
}

fn pair(k: &str, v: &str) -> (r: (String, String))
    ensures
        r.0@ == k@,
        r.1@ == v@,
{
    (String::from_str(k), String::from_str(v))
}

/// The authorization address for the code verifier `code_verifier`.
pub fn oauth_url(code_verifier: &CodeVerifier) -> (r: String)
    ensures
        r@ == spec_url_with_params(oauth_endpoint(), oauth_params(spec_challenge(code_verifier.spec_str()))),
{
    let challenge = code_verifier.to_challenge();
    let mut params: Vec<(String, String)> = Vec::new();
    params.push(pair("client_id", "85252daf268d27fbefac93e1ac462bfd"));
    params.push(pair("response_type", "code"));
    params.push(pair("scope", "itch"));
    params.push(pair("redirect_uri", "itch://oauth-callback"));
    params.push(pair("code_challenge_method", "S256"));
    params.push(pair("code_challenge", challenge.as_str()));
    proof {
        assert(pairs_view(params@) =~= oauth_params(challenge.spec_str()));
    }
    let endpoint = "https://itch.io/user/oauth";
    match url_with_params(endpoint, &params) {
        Some(u) => u,
        None => {
            proof {
                assert(false);
            }
            String::new()
        },
    }
}

/// Builds an authorization address with a freshly generated code verifier,
/// whose challenge the address carries; `None` when the operating system's
/// random source fails.
pub fn get_oauth_url() -> (r: Option<OAuthRequest>)
    ensures
        r matches Some(req) ==> req.code_verifier.spec_str().len() == 43 && url_safe_text(
            req.code_verifier.spec_str(),
        ) && req.url@ == spec_url_with_params(
            oauth_endpoint(),
            oauth_params(spec_challenge(req.code_verifier.spec_str())),
        ),
{
    match CodeVerifier::random() {
        Some(code_verifier) => {
            let url = oauth_url(&code_verifier);
            Some(OAuthRequest { url, code_verifier })
        },
        None => None,
    }
}

} // verus!
