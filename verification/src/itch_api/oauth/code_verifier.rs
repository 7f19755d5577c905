//! PKCE (Proof Key for Code Exchange) for OAuth 2.0 authorization, as
//! RFC 7636 defines it.
use vstd::prelude::*;
use vstd::utf8::encode_utf8;

verus! {

/// The character of the six-bit value `v` in the URL-safe base64 alphabet
/// (RFC 4648, section 5).
pub open spec fn base64_url_char(v: nat) -> char {
    if v < 26 {
        (65 + v) as char
    } else if v < 52 {
        (97 + v - 26) as char
    } else if v < 62 {
        (48 + v - 52) as char
    } else if v == 62 {
        '-'
    } else {
        '_'
    }
}

/// The URL-safe base64 encoding of `bytes`, without padding: each group of
/// three bytes gives four characters, six bits each, most significant
/// first; a last group of one or two bytes gives two or three characters,
/// its missing bits taken as zeros.
pub open spec fn spec_base64_url_no_pad(bytes: Seq<u8>) -> Seq<char>
    decreases bytes.len(),
{
    if bytes.len() == 0 {
        seq![]
    } else {
        let b0 = bytes[0] as nat;
        let b1: nat = if bytes.len() > 1 { bytes[1] as nat } else { 0 };
        let b2: nat = if bytes.len() > 2 { bytes[2] as nat } else { 0 };
        let c0 = base64_url_char(b0 / 4);
        let c1 = base64_url_char((b0 % 4) * 16 + b1 / 16);
        let c2 = base64_url_char((b1 % 16) * 4 + b2 / 64);
        let c3 = base64_url_char(b2 % 64);
        if bytes.len() == 1 {
            seq![c0, c1]
        } else if bytes.len() == 2 {
            seq![c0, c1, c2]
        } else {
            seq![c0, c1, c2, c3] + spec_base64_url_no_pad(bytes.skip(3))
        }
    }
}

/// What `sha2::Sha256::digest` gives for `bytes`.
pub uninterp spec fn spec_sha256(bytes: Seq<u8>) -> Seq<u8>;

/// The length of the unpadded base64 encoding of `n` bytes: four characters
/// for each three bytes, and two or three for a rest of one or two bytes.
pub open spec fn base64_unpadded_len(n: nat) -> nat {
    4 * (n / 3) + if n % 3 == 0 {
        0
    } else {
        n % 3 + 1
    }
}

/// Whether `c` belongs to the URL-safe base64 alphabet: ASCII letters,
/// digits, `-` and `_` (the unreserved characters RFC 7636 allows, less `.`
/// and `~`).
pub open spec fn url_safe_char(c: char) -> bool {
    ('A' <= c <= 'Z') || ('a' <= c <= 'z') || ('0' <= c <= '9') || c == '-' || c == '_'
}

/// Whether every character of `s` belongs to the URL-safe base64 alphabet.
pub open spec fn url_safe_text(s: Seq<char>) -> bool {
    forall|i: int| 0 <= i < s.len() ==> url_safe_char(#[trigger] s[i])
}

/// The encoding has the length the `base64` crate's `encoded_len` gives
/// without padding, and uses only the URL-safe alphabet.
pub proof fn lemma_base64_url_no_pad(bytes: Seq<u8>)
    ensures
        spec_base64_url_no_pad(bytes).len() == base64_unpadded_len(bytes.len()),
        url_safe_text(spec_base64_url_no_pad(bytes)),
    decreases bytes.len(),
{
    if bytes.len() > 2 {
        lemma_base64_url_no_pad(bytes.skip(3));
    }
}

/// Encodes `bytes` as URL-safe base64 without padding, with
/// `base64::engine::general_purpose::URL_SAFE_NO_PAD`. The contract claims
/// that the text is the encoding that `spec_base64_url_no_pad` states (the
/// crate's `encode` with the URL-safe alphabet and no padding). The
/// `requires` keeps the crate's computation of the encoded length from
/// overflowing, where it panics.
#[verifier::external_body]
fn base64_url_no_pad(bytes: &[u8]) -> (r: String)
    requires
        bytes@.len() < 0x4000_0000,
    ensures
        r@ == spec_base64_url_no_pad(bytes@),
{
    base64::Engine::encode(&base64::engine::general_purpose::URL_SAFE_NO_PAD, bytes)
}

/// Hashes `bytes` with `sha2::Sha256::digest`. The contract claims that the
/// digest depends on the bytes alone and is 32 bytes long (its type fixes
/// that length).
#[verifier::external_body]
fn sha256_digest(bytes: &[u8]) -> (r: Vec<u8>)
    ensures
        r@ == spec_sha256(bytes@),
        r@.len() == 32,
{
    <sha2::Sha256 as sha2::Digest>::digest(bytes).to_vec()
}

/// Fills 32 bytes from the operating system's random source
/// (`rand::rngs::OsRng`, with `TryRngCore::try_fill_bytes`), or gives `None`
/// when that source fails. Nothing is claimed of the bytes.
#[verifier::external_body]
fn random_bytes_32() -> (r: Option<[u8; 32]>) {
    let mut bytes = [0u8; 32];
    match rand::TryRngCore::try_fill_bytes(&mut rand::rngs::OsRng, &mut bytes) {
        Ok(()) => Some(bytes),
        Err(_) => None,
    }
}

/// The PKCE challenge of the verifier text `verifier`: the SHA-256 digest
/// of its UTF-8 bytes, encoded as URL-safe base64 without padding.
pub open spec fn spec_challenge(verifier: Seq<char>) -> Seq<char> {
    spec_base64_url_no_pad(spec_sha256(encode_utf8(verifier)))
}

/// A PKCE code verifier (RFC 7636, section 4.1): 32 random bytes encoded as
/// URL-safe base64 without padding.
#[derive(Debug, Clone, PartialEq, Eq)]
pub struct CodeVerifier(String);

/// A PKCE code challenge (RFC 7636, section 4.2), derived from a
/// [`CodeVerifier`].
#[derive(Debug, Clone, PartialEq, Eq)]
pub struct CodeChallenge(String);

impl CodeVerifier {
    /// The verifier's text.
    pub closed spec fn spec_str(&self) -> Seq<char> {
        self.0@
    }

    /// The verifier that encodes `bytes`: 43 characters.
    pub fn from_bytes(bytes: [u8; 32]) -> (r: CodeVerifier)
        ensures
            r.spec_str() == spec_base64_url_no_pad(bytes@),
            r.spec_str().len() == 43,
            url_safe_text(r.spec_str()),
    {
        let text = base64_url_no_pad(bytes.as_slice());
        proof {
            lemma_base64_url_no_pad(bytes@);
        }
        CodeVerifier(text)
    }

    /// A verifier made from 32 cryptographically random bytes, or `None`
    /// when the operating system's random source fails.
    pub fn random() -> (r: Option<CodeVerifier>)
        ensures
            r matches Some(v) ==> v.spec_str().len() == 43 && url_safe_text(v.spec_str()) && exists|
                b: Seq<u8>,
            | b.len() == 32 && v.spec_str() == spec_base64_url_no_pad(b),
    {
        match random_bytes_32() {
            Some(bytes) => Some(CodeVerifier::from_bytes(bytes)),
            None => None,
        }
    }

    /// The challenge: the SHA-256 digest of the verifier's text, encoded as
    /// URL-safe base64 without padding; 43 characters.
    pub fn to_challenge(&self) -> (r: CodeChallenge)
        ensures
            r.spec_str() == spec_challenge(self.spec_str()),
            r.spec_str().len() == 43,
            url_safe_text(r.spec_str()),
    {
        let hash = sha256_digest(self.0.as_str().as_bytes());
        let text = base64_url_no_pad(hash.as_slice());
        proof {
            lemma_base64_url_no_pad(hash@);
        }
        CodeChallenge(text)
    }

    /// The verifier's text.
    pub fn as_str(&self) -> (r: &str)
        ensures
            r@ == self.spec_str(),
    {
        self.0.as_str()
    }
}

impl CodeChallenge {
    /// The challenge's text.
    pub closed spec fn spec_str(&self) -> Seq<char> {
        self.0@
    }

    /// The challenge's text.
    pub fn as_str(&self) -> (r: &str)
        ensures
            r@ == self.spec_str(),
    {
        self.0.as_str()
    }
}

} // verus!
