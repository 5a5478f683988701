//! Cognito's side of authentication: where the user pool publishes its keys, who issues
//! its tokens, and the checks a bearer token goes through.
use vstd::prelude::*;

use crate::jwks::{
    jwk_step, lemma_served_key_has_kid, next_jwk_action, opt_keys, served_key, Jwk, JwkAction,
    JwkActionView, JwkEvent, JwkEventView, JwkView, Jwks, JwksResult,
};
use crate::jwt::{
    b64url_decodable, check_can_pass, decode_claims, decode_header_kid, jwt_header_kid,
    jwt_reading, signed_with_expiry, token_accepted, JwtRefusal,
};

verus! {

/// The user pool that issues the tokens this service accepts, with the key set last
/// used, if any.
#[derive(Debug, Clone)]
pub struct CognitoConfig {
    pub client_id: String,
    pub user_pool_id: String,
    pub region: String,
    pub jwks: Option<Jwks>,
}

/// Why a token was refused.
#[derive(Debug)]
pub enum AuthError {
    /// The JWT library refused the token or the key for a reason other than expiry: a
    /// malformed token, a key that is not base64url, another algorithm, a bad signature, no
    /// `exp` claim, or a wrong audience or issuer.
    Jwt(jsonwebtoken::errors::Error),
    /// The token is signed with the key but its `exp` claim has passed.
    Expired(jsonwebtoken::errors::Error),
    /// The token's header names no key id. The service treats a request that comes to this
    /// as a defect and stops (it panics), so this is never answered to a caller.
    MissingKid,
}

/// The signature algorithms a token may be checked with.
#[derive(Debug, Clone, Copy, PartialEq, Eq, Structural)]
pub enum SignatureAlgorithm {
    /// RSASSA-PKCS1-v1_5 with SHA-256.
    RS256,
}

/// What a token is checked against: its signature algorithm, audience and issuer.
#[derive(Debug, Clone)]
pub struct TokenRules {
    pub algorithm: SignatureAlgorithm,
    pub audience: String,
    pub issuer: String,
}

/// The issuer of the user pool's tokens.
pub open spec fn issuer_of(region: Seq<char>, user_pool_id: Seq<char>) -> Seq<char> {
    "https://cognito-idp."@ + region + ".amazonaws.com/"@ + user_pool_id
}

/// The address at which the user pool publishes its key set.
pub open spec fn jwks_url_of(region: Seq<char>, user_pool_id: Seq<char>) -> Seq<char> {
    "https://cognito-idp."@ + region + ".amazonaws.com/"@ + user_pool_id
        + "/.well-known/jwks.json"@
}

/// The issuer of the tokens of the configured user pool.
pub fn cognito_issuer(config: &CognitoConfig) -> (r: String)
    ensures
        r@ == issuer_of(config.region@, config.user_pool_id@),
{
    let mut s = String::from_str("https://cognito-idp.");
    s.append(config.region.as_str());
    s.append(".amazonaws.com/");
    s.append(config.user_pool_id.as_str());
    s
}

/// The address of the key set of the configured user pool.
pub fn jwks_url(config: &CognitoConfig) -> (r: String)
    ensures
        r@ == jwks_url_of(config.region@, config.user_pool_id@),
{
    let mut s = cognito_issuer(config);
    s.append("/.well-known/jwks.json");
    s
}

/// The issuer of a user pool is, for every region and pool id, the 20 characters
/// `https://cognito-idp.`, then the region, then the 15 characters `.amazonaws.com/`,
/// then the pool id, and nothing else.
pub proof fn lemma_issuer_layout(region: Seq<char>, user_pool_id: Seq<char>)
    ensures
        issuer_of(region, user_pool_id).len() == 35 + region.len() + user_pool_id.len(),
        issuer_of(region, user_pool_id).subrange(0, 20) =~= seq![
            'h', 't', 't', 'p', 's', ':', '/', '/', 'c', 'o', 'g', 'n', 'i', 't', 'o', '-', 'i',
            'd', 'p', '.',
        ],
        issuer_of(region, user_pool_id).subrange(20, 20 + region.len() as int) =~= region,
        issuer_of(region, user_pool_id).subrange(20 + region.len() as int, 35 + region.len() as int) =~= seq![
            '.', 'a', 'm', 'a', 'z', 'o', 'n', 'a', 'w', 's', '.', 'c', 'o', 'm', '/',
        ],
        issuer_of(region, user_pool_id).subrange(
            35 + region.len() as int,
            issuer_of(region, user_pool_id).len() as int,
        ) =~= user_pool_id,
{
    reveal_strlit("https://cognito-idp.");
    reveal_strlit(".amazonaws.com/");
    let s = issuer_of(region, user_pool_id);
    assert(s =~= "https://cognito-idp."@ + region + ".amazonaws.com/"@ + user_pool_id);
}

/// The key set of a user pool is published under its issuer.
pub proof fn lemma_jwks_url_under_issuer(region: Seq<char>, user_pool_id: Seq<char>)
    ensures
        jwks_url_of(region, user_pool_id) == issuer_of(region, user_pool_id)
            + "/.well-known/jwks.json"@,
{
}

/// The rules a token of the configured user pool must meet: signed with RS256,
/// addressed to the app client, issued by the user pool.
pub fn token_rules(config: &CognitoConfig) -> (r: TokenRules)
    ensures
        r.algorithm == SignatureAlgorithm::RS256,
        r.audience@ == config.client_id@,
        r.issuer@ == issuer_of(config.region@, config.user_pool_id@),
{
    TokenRules {
        algorithm: SignatureAlgorithm::RS256,
        audience: config.client_id.clone(),
        issuer: cognito_issuer(config),
    }
}

/// The token carried by an `Authorization` header: all but its first seven characters,
/// which in a well-formed header read `Bearer `.
pub fn bearer_token(header_value: &str) -> (token: &str)
    requires
        header_value.is_ascii(),
        header_value@.len() >= 7,
    ensures
        token@ == header_value@.subrange(7, header_value@.len() as int),
        token.is_ascii(),
{
    header_value.substring_ascii(7, header_value.unicode_len())
}

/// The key id of a token, from what `decode_header` gave for it.
pub fn kid_from_header(
    decoded: Result<Option<String>, jsonwebtoken::errors::Error>,
) -> (r: Result<String, AuthError>)
    ensures
        match decoded {
            Ok(Some(kid)) => r matches Ok(k) && k@ == kid@,
            Ok(None) => r matches Err(AuthError::MissingKid),
            Err(_) => r matches Err(AuthError::Jwt(_)),
        },
{
    match decoded {
        Ok(Some(kid)) => Ok(kid),
        Ok(None) => Err(AuthError::MissingKid),
        Err(e) => Err(AuthError::Jwt(e)),
    }
}

/// The key id named in the header of `token`.
pub fn token_kid(token: &str) -> (r: Result<String, AuthError>)
    ensures
        match jwt_header_kid(token@) {
            Some(Some(kid)) => r matches Ok(k) && k@ == kid,
            Some(None) => r matches Err(AuthError::MissingKid),
            None => r matches Err(AuthError::Jwt(_)),
        },
{
    let decoded = decode_header_kid(token);
    kid_from_header(decoded)
}

/// The outcome of a token check, from what `decode` gave for it.
pub fn claims_from_decoded(decoded: Result<String, JwtRefusal>) -> (r: Result<String, AuthError>)
    ensures
        match decoded {
            Ok(claims) => r matches Ok(c) && c@ == claims@,
            Err(JwtRefusal::Expired(_)) => r matches Err(AuthError::Expired(_)),
            Err(JwtRefusal::Rejected(_)) => r matches Err(AuthError::Jwt(_)),
        },
{
    match decoded {
        Ok(claims) => Ok(claims),
        Err(JwtRefusal::Expired(e)) => Err(AuthError::Expired(e)),
        Err(JwtRefusal::Rejected(e)) => Err(AuthError::Jwt(e)),
    }
}

/// What the outcome `r` of checking `token` with the key (`n`, `e`), accepting only
/// `audience` and `issuer`, tells: an acceptance means the token passes and `r` holds its
/// payload; an expiry means the token is signed with the key and carries an `exp`; any
/// other refusal means the key is not base64url or the token does not pass.
pub open spec fn check_outcome(
    r: Result<String, AuthError>,
    token: Seq<char>,
    n: Seq<char>,
    e: Seq<char>,
    audience: Seq<char>,
    issuer: Seq<char>,
) -> bool {
    match r {
        Ok(claims) => token_accepted(token, n, e, audience, issuer, claims@),
        Err(AuthError::Expired(_)) => signed_with_expiry(token, n, e),
        Err(AuthError::Jwt(_)) => !check_can_pass(token, n, e, audience, issuer),
        Err(AuthError::MissingKid) => false,
    }
}

/// Checks `token` against the RSA key `jwk` and the `rules`, and gives its payload's JSON
/// text. A key whose modulus or exponent is not base64url refuses every token. A token
/// passes only where its header names RS256, its signature verifies under the key's
/// modulus and exponent, it has an `exp` claim, and any `aud` and `iss` claim it states
/// include the rules' audience and issuer; the text handed back is its own payload.
pub fn verify_token(token: &str, jwk: &Jwk, rules: &TokenRules) -> (r: Result<String, AuthError>)
    ensures
        !(b64url_decodable(jwk.n@) && b64url_decodable(jwk.e@)) ==> r matches Err(
            AuthError::Jwt(_),
        ),
        check_outcome(r, token@, jwk.n@, jwk.e@, rules.audience@, rules.issuer@),
{
    let decoded = decode_claims(token, jwk.n.as_str(), jwk.e.as_str(), rules);
    claims_from_decoded(decoded)
}

/// Checks `token` against the key a lookup served, for the configured user pool: audience
/// the app client, issuer the user pool.
pub fn check_token(token: &str, served: &JwksResult, config: &CognitoConfig) -> (r: Result<
    String,
    AuthError,
>)
    ensures
        check_outcome(
            r,
            token@,
            served.jwk.n@,
            served.jwk.e@,
            config.client_id@,
            issuer_of(config.region@, config.user_pool_id@),
        ),
{
    let rules = token_rules(config);
    verify_token(token, &served.jwk, &rules)
}

/// An accepted token is authentic: where the header of `token` names the key id `kid`,
/// the lookup of `kid` served the key `k` from the key set `ks`, and the check of `token`
/// against `k` for the app client `client_id` of the user pool `user_pool_id` in `region`
/// accepted it, then `k` is a key of `ks` with id `kid`, the token is signed RS256 under
/// `k`, it carries an expiry, and the audience and issuer it states include the app client
/// and the pool's issuer.
pub proof fn lemma_accepted_token_is_authentic(
    token: Seq<char>,
    kid: Seq<char>,
    event: JwkEventView,
    k: JwkView,
    ks: Seq<JwkView>,
    client_id: Seq<char>,
    region: Seq<char>,
    user_pool_id: Seq<char>,
    claims: Seq<char>,
)
    requires
        jwt_header_kid(token) == Some(Some(kid)),
        served_key(jwk_step(kid, event)) == Some((k, ks)),
        token_accepted(token, k.n, k.e, client_id, issuer_of(region, user_pool_id), claims),
    ensures
        k.kid == kid,
        ks.contains(k),
        jwt_reading(token, k.n, k.e) matches Some(t) && {
            &&& t.alg == "RS256"@
            &&& t.rs256_signature_valid
            &&& t.exp is Some
            &&& (t.aud matches Some(a) ==> a.contains(client_id))
            &&& (t.iss matches Some(i) ==> i.contains(issuer_of(region, user_pool_id)))
            &&& t.claims == claims
        },
{
    lemma_served_key_has_kid(kid, event);
}

/// Whether `claims` is what an authentic request carrying `token` may be answered with,
/// given the key set `keys` it was checked against: a key of `keys` has the id that the
/// token's header names, and the check of the token against that key, for the app client
/// `client_id` and the issuer `issuer`, accepted it with these claims.
pub open spec fn authentic(
    token: Seq<char>,
    keys: Seq<JwkView>,
    client_id: Seq<char>,
    issuer: Seq<char>,
    claims: Seq<char>,
) -> bool {
    exists|k: JwkView|
        #![trigger keys.contains(k)]
        keys.contains(k) && jwt_header_kid(token) == Some(Some(k.kid)) && token_accepted(
            token,
            k.n,
            k.e,
            client_id,
            issuer,
            claims,
        )
}

/// The authentication of one request: its bearer token and the key id its header names.
pub struct Authentication {
    token: String,
    kid: String,
}

impl Authentication {
    /// The token being authenticated.
    pub closed spec fn token_view(&self) -> Seq<char> {
        self.token@
    }

    /// The key id named by the token's header.
    pub closed spec fn kid_view(&self) -> Seq<char> {
        self.kid@
    }

    /// The key id is the one the token's header names.
    #[verifier::type_invariant]
    closed spec fn names_kid(&self) -> bool {
        jwt_header_kid(self.token@) == Some(Some(self.kid@))
    }
}

/// An accepted request: the key set it was checked against, and its token's claims as
/// JSON text.
pub struct AuthenticatedToken {
    pub jwks: Jwks,
    pub claims: String,
}

/// What the authentication of a request does next.
pub enum AuthAction {
    /// Read the key set kept in the bucket, and step with what it gave.
    ReadStore,
    /// Fetch the key set from the user pool, and step with it.
    FetchRemote,
    /// The authentication is over, with this outcome.
    Done(Result<AuthenticatedToken, AuthError>),
    /// Write this key set to the bucket; then the authentication is over, with this outcome.
    StoreAndDone(Jwks, Result<AuthenticatedToken, AuthError>),
    /// The user pool publishes no key with the token's key id. The service treats this as
    /// a misconfiguration and stops (it panics); no key set is stored.
    NoSuchKey,
}

/// What the outcome of checking `token` against the key `k` of the set `ks` tells, for
/// the configured user pool: an accepted token passes and comes back with `ks`; an expired
/// one is signed with `k`; any other refusal means the token does not pass under `k`.
pub open spec fn outcome_of_check(
    r: Result<AuthenticatedToken, AuthError>,
    token: Seq<char>,
    k: JwkView,
    ks: Seq<JwkView>,
    config: CognitoConfig,
) -> bool {
    match r {
        Ok(x) => x.jwks@ == ks && token_accepted(
            token,
            k.n,
            k.e,
            config.client_id@,
            issuer_of(config.region@, config.user_pool_id@),
            x.claims@,
        ),
        Err(AuthError::Expired(_)) => signed_with_expiry(token, k.n, k.e),
        Err(AuthError::Jwt(_)) => !check_can_pass(
            token,
            k.n,
            k.e,
            config.client_id@,
            issuer_of(config.region@, config.user_pool_id@),
        ),
        Err(AuthError::MissingKid) => false,
    }
}

/// Starts the authentication of a request carrying `token`, by reading the key id its
/// header names.
pub fn start_authentication(token: &str) -> (r: Result<Authentication, AuthError>)
    ensures
        match jwt_header_kid(token@) {
            Some(Some(kid)) => r matches Ok(a) && a.token_view() == token@ && a.kid_view() == kid,
            Some(None) => r matches Err(AuthError::MissingKid),
            None => r matches Err(AuthError::Jwt(_)),
        },
{
    match token_kid(token) {
        Ok(kid) => Ok(Authentication { token: token.to_owned(), kid }),
        Err(e) => Err(e),
    }
}

/// The first thing the key lookup learns: the key set cached in the configuration.
pub fn cached_event(config: &CognitoConfig) -> (e: JwkEvent)
    ensures
        e@ == JwkEventView::Cached(opt_keys(config.jwks)),
{
    match &config.jwks {
        Some(jwks) => JwkEvent::Cached(Some(jwks.duplicate())),
        None => JwkEvent::Cached(None),
    }
}

/// The outcome of checking the token against the key a lookup served.
fn finish_authentication(token: &str, served: JwksResult, config: &CognitoConfig) -> (r: Result<
    AuthenticatedToken,
    AuthError,
>)
    ensures
        outcome_of_check(r, token@, served.jwk@, served.jwks@, *config),
{
    match check_token(token, &served, config) {
        Ok(claims) => Ok(AuthenticatedToken { jwks: served.jwks, claims }),
        Err(e) => Err(e),
    }
}

/// Decides the next move of the authentication `auth` for the configured user pool, from
/// what the last source of keys gave: the lookup of the token's key id goes on, or the
/// token is checked against the key it served and the authentication ends. An accepted
/// request is authentic.
pub fn authentication_step(auth: &Authentication, config: &CognitoConfig, event: JwkEvent) -> (a:
    AuthAction)
    ensures
        match jwk_step(auth.kid_view(), event@) {
            JwkActionView::Found(k, ks) => a matches AuthAction::Done(r) && outcome_of_check(
                r,
                auth.token_view(),
                k,
                ks,
                *config,
            ),
            JwkActionView::StoreAndReturn(k, ks) => a matches AuthAction::StoreAndDone(j, r)
                && j@ == ks && outcome_of_check(r, auth.token_view(), k, ks, *config),
            JwkActionView::ReadStore => a is ReadStore,
            JwkActionView::FetchRemote => a is FetchRemote,
            JwkActionView::NoSuchKey => a is NoSuchKey,
        },
        a matches AuthAction::Done(Ok(x)) ==> authentic(
            auth.token_view(),
            x.jwks@,
            config.client_id@,
            issuer_of(config.region@, config.user_pool_id@),
            x.claims@,
        ),
        a matches AuthAction::StoreAndDone(_, Ok(x)) ==> authentic(
            auth.token_view(),
            x.jwks@,
            config.client_id@,
            issuer_of(config.region@, config.user_pool_id@),
            x.claims@,
        ),
{
    proof {
        use_type_invariant(auth);
        lemma_served_key_has_kid(auth.kid@, event@);
    }
    match next_jwk_action(&auth.kid, event) {
        JwkAction::Found(served) => {
            let r = finish_authentication(auth.token.as_str(), served, config);
            AuthAction::Done(r)
        },
        JwkAction::StoreAndReturn(served) => {
            let jwks = served.jwks.duplicate();
            let r = finish_authentication(auth.token.as_str(), served, config);
            AuthAction::StoreAndDone(jwks, r)
        },
        JwkAction::ReadStore => AuthAction::ReadStore,
        JwkAction::FetchRemote => AuthAction::FetchRemote,
        JwkAction::NoSuchKey => AuthAction::NoSuchKey,
    }
}

} // verus!
