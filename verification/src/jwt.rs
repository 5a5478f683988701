//! The calls into the `jsonwebtoken` crate, with what this library relies on of each.
use vstd::prelude::*;

use crate::cognito::{SignatureAlgorithm, TokenRules};

verus! {

/// The error type of the `jsonwebtoken` crate.
#[verifier::external_type_specification]
#[verifier::external_body]
pub struct ExJwtError(jsonwebtoken::errors::Error);

/// The value of a character of the URL-safe base64 alphabet (`A`-`Z`, `a`-`z`, `0`-`9`,
/// `-`, `_`), or -1 for any other character.
pub open spec fn b64url_value(c: char) -> int {
    if 'A' <= c && c <= 'Z' {
        (c as int) - ('A' as int)
    } else if 'a' <= c && c <= 'z' {
        (c as int) - ('a' as int) + 26
    } else if '0' <= c && c <= '9' {
        (c as int) - ('0' as int) + 52
    } else if c == '-' {
        62
    } else if c == '_' {
        63
    } else {
        -1
    }
}

/// Whether `s` is URL-safe base64 without padding, as the `base64` crate's
/// `URL_SAFE_NO_PAD` engine decodes it: every character is of the alphabet, the length is
/// not one more than a multiple of four, and the bits of a last partial group that
/// encode no byte are zero.
pub open spec fn b64url_decodable(s: Seq<char>) -> bool {
    &&& forall|i: int| 0 <= i < s.len() ==> b64url_value(#[trigger] s[i]) >= 0
    &&& s.len() % 4 != 1
    &&& s.len() % 4 == 2 ==> b64url_value(s[s.len() - 1]) % 16 == 0
    &&& s.len() % 4 == 3 ==> b64url_value(s[s.len() - 1]) % 4 == 0
}

/// What `jsonwebtoken` reads of a compact token, checked against the RSA public key with
/// base64url modulus `n` and exponent `e`; none of it depends on the clock.
pub struct JwtReading {
    /// The header's `alg` member.
    pub alg: Seq<char>,
    /// Whether the token's signature verifies as RS256 (RSASSA-PKCS1-v1_5 with SHA-256,
    /// a 2048 to 8192-bit modulus) over the token's header and payload under the key.
    pub rs256_signature_valid: bool,
    /// The `exp` claim, where the payload has one that reads as an unsigned count of
    /// seconds.
    pub exp: Option<nat>,
    /// The `aud` claim: a string gives a set of one, a list of strings the set of them;
    /// `None` where the claim is absent or of another shape.
    pub aud: Option<Set<Seq<char>>>,
    /// The `iss` claim, read in the same way as `aud`.
    pub iss: Option<Set<Seq<char>>>,
    /// The text of the JSON value that the payload holds.
    pub claims: Seq<char>,
}

/// What `jsonwebtoken::decode` reads of `token` under the key (`n`, `e`): `None` where the
/// token is not three dot-separated parts with a base64url header that names a known
/// algorithm and a base64url JSON payload that reads as the claims the crate validates
/// (an object in which none of `exp`, `nbf`, `sub`, `iss`, `aud` is repeated).
pub uninterp spec fn jwt_reading(token: Seq<char>, n: Seq<char>, e: Seq<char>) -> Option<
    JwtReading,
>;

/// The key id (`kid`) of the header of the compact token `token`, as
/// `jsonwebtoken::decode_header` reads it: `None` where the header cannot be read
/// (not three parts, bad base64url, bad JSON), `Some(None)` where it names no key id.
pub uninterp spec fn jwt_header_kid(token: Seq<char>) -> Option<Option<Seq<char>>>;

/// Whether a reading meets the checks `decode` makes apart from the clock, for an RS256
/// validation that accepts only `audience` and `issuer`: the header names RS256, the
/// signature verifies, an `exp` claim is present, and an `aud` or `iss` claim, where the
/// token states one, includes the accepted value.
pub open spec fn reading_passes(t: JwtReading, audience: Seq<char>, issuer: Seq<char>) -> bool {
    &&& t.alg == "RS256"@
    &&& t.rs256_signature_valid
    &&& t.exp is Some
    &&& (t.aud matches Some(a) ==> a.contains(audience))
    &&& (t.iss matches Some(i) ==> i.contains(issuer))
}

/// Whether a check of `token` with the key (`n`, `e`), accepting only `audience` and
/// `issuer`, meets every requirement that does not depend on the clock: the key is
/// base64url, and the token's reading passes.
pub open spec fn check_can_pass(
    token: Seq<char>,
    n: Seq<char>,
    e: Seq<char>,
    audience: Seq<char>,
    issuer: Seq<char>,
) -> bool {
    &&& b64url_decodable(n)
    &&& b64url_decodable(e)
    &&& jwt_reading(token, n, e) matches Some(t)
    &&& reading_passes(t, audience, issuer)
}

/// Whether `token` is signed RS256 with the key (`n`, `e`) and carries an `exp` claim.
pub open spec fn signed_with_expiry(token: Seq<char>, n: Seq<char>, e: Seq<char>) -> bool {
    &&& b64url_decodable(n)
    &&& b64url_decodable(e)
    &&& jwt_reading(token, n, e) matches Some(t)
    &&& t.alg == "RS256"@
    &&& t.rs256_signature_valid
    &&& t.exp is Some
}

/// Why `jsonwebtoken::decode` refused a token.
#[derive(Debug)]
pub enum JwtRefusal {
    /// The token's `exp` claim, checked against the clock, has passed.
    Expired(jsonwebtoken::errors::Error),
    /// Any other reason.
    Rejected(jsonwebtoken::errors::Error),
}

/// Whether `claims` can be what a successful check of `token` with the key (`n`, `e`),
/// accepting only `audience` and `issuer`, gives: the token's reading passes and `claims`
/// is the token's own payload.
pub open spec fn token_accepted(
    token: Seq<char>,
    n: Seq<char>,
    e: Seq<char>,
    audience: Seq<char>,
    issuer: Seq<char>,
    claims: Seq<char>,
) -> bool {
    &&& jwt_reading(token, n, e) matches Some(t)
    &&& reading_passes(t, audience, issuer)
    &&& t.claims == claims
}

/// The abstract value of an optional text.
pub open spec fn opt_text(s: Option<String>) -> Option<Seq<char>> {
    match s {
        Some(t) => Some(t@),
        None => None,
    }
}

/// Calls `jsonwebtoken::decode_header` and keeps the header's key id. Trusted: the
/// outcome is `jwt_header_kid` of the token, a function of the token alone (the crate
/// splits the token at its dots, base64url-decodes the header and parses its JSON).
#[verifier::external_body]
pub(crate) fn decode_header_kid(token: &str) -> (r: Result<Option<String>, jsonwebtoken::errors::Error>)
    ensures
        match r {
            Ok(kid) => jwt_header_kid(token@) == Some(opt_text(kid)),
            Err(_) => jwt_header_kid(token@) is None,
        },
{
    jsonwebtoken::decode_header(token).map(|header| header.kid)
}

/// Calls `jsonwebtoken::decode` on `token`, with the key that
/// `DecodingKey::from_rsa_components` builds from `n` and `e`, under a `Validation` made
/// from `rules`: its algorithm as the only one accepted, its audience and its issuer as
/// the only ones accepted, the crate's defaults otherwise (`exp` required, and checked
/// against the clock with a leeway of 60 s). Gives the payload's JSON text, or the error
/// told apart as expiry or another refusal.
/// Trusted: a success means the token's reading under (`n`, `e`) passes the checks for the
/// rules' audience and issuer, and the text is the token's payload; an expiry means the
/// token is signed with the key and has an `exp` claim; any other refusal means the key is
/// not base64url or the reading does not pass. Not stated: whether a token that passes
/// every other check has expired, since that reads the clock.
#[verifier::external_body]
pub(crate) fn decode_claims(token: &str, n: &str, e: &str, rules: &TokenRules) -> (r: Result<
    String,
    JwtRefusal,
>)
    ensures
        !(b64url_decodable(n@) && b64url_decodable(e@)) ==> r matches Err(JwtRefusal::Rejected(_)),
        r matches Ok(claims) ==> jwt_reading(token@, n@, e@) matches Some(t) && reading_passes(
            t,
            rules.audience@,
            rules.issuer@,
        ) && t.claims == claims@,
        r matches Err(JwtRefusal::Expired(_)) ==> signed_with_expiry(token@, n@, e@),
        r matches Err(JwtRefusal::Rejected(_)) ==> !check_can_pass(
            token@,
            n@,
            e@,
            rules.audience@,
            rules.issuer@,
        ),
{
    let refusal = |err: jsonwebtoken::errors::Error| match err.kind() {
        jsonwebtoken::errors::ErrorKind::ExpiredSignature => JwtRefusal::Expired(err),
        _ => JwtRefusal::Rejected(err),
    };
    let key = jsonwebtoken::DecodingKey::from_rsa_components(n, e).map_err(refusal)?;
    let algorithm = match rules.algorithm {
        SignatureAlgorithm::RS256 => jsonwebtoken::Algorithm::RS256,
    };
    let mut validation = jsonwebtoken::Validation::new(algorithm);
    validation.set_audience(&[rules.audience.as_str()]);
    validation.set_issuer(&[rules.issuer.as_str()]);
    jsonwebtoken::decode::<Box<serde_json::value::RawValue>>(token, &key, &validation)
        .map(|data| data.claims.get().to_string()).map_err(refusal)
}

} // verus!
