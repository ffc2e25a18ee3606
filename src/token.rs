use vstd::prelude::*;

verus! {

/// Lifetime of a session token, in seconds: twelve hours.
pub const TOKEN_LIFETIME_SECS: i64 = 43200;

/// Why a session token was refused.
#[derive(PartialEq, Eq, Structural, Clone, Copy, Debug)]
pub enum TokenFault {
    /// The signature does not match the claims under the server's secret.
    InvalidSignature,
    /// The token is past its expiry.
    Expired,
    /// The token or its claims cannot be read.
    Malformed,
}

/// The claims a session token carries; times are seconds since the Unix epoch.
pub struct JwtClaims {
    pub sub: String,
    pub issuedAt: i64,
    pub expiresAt: i64,
}

/// The compact token that signing these claims under `secret` gives.
pub uninterp spec fn jwt_encoding(secret: Seq<char>, sub: Seq<char>, issued_at: int, expires_at: int) -> Seq<char>;

/// What reading `token` under `secret` gives: its subject, issue and expiry times, or the fault.
pub uninterp spec fn jwt_decoding(secret: Seq<char>, token: Seq<char>) -> Result<(Seq<char>, int, int), TokenFault>;

/// A successful reading of claims.
pub open spec fn decoded(sub: Seq<char>, issued_at: int, expires_at: int) -> Result<(Seq<char>, int, int), TokenFault> {
    Ok((sub, issued_at, expires_at))
}

/// A failed reading of claims.
pub open spec fn refused(f: TokenFault) -> Result<(Seq<char>, int, int), TokenFault> {
    Err(f)
}

/// Relies on jsonwebtoken::encode with the default header (HS256) and an HMAC key made of the
/// secret's bytes, the claims being a JSON object with `sub`, `issuedAt` and `expiresAt`. HMAC
/// signing is a function of its inputs, and jsonwebtoken::decode under the same key (see
/// `read_claims`) gives the same claims back. With an HMAC key and an HMAC algorithm encoding
/// cannot fail: the key's family matches the algorithm's, and HMAC signing always succeeds.
#[verifier::external_body]
fn sign_claims(secret: &str, sub: &str, issued_at: i64, expires_at: i64) -> (r: Option<String>)
    ensures
        r is Some,
        r matches Some(t) ==> t@ == jwt_encoding(secret@, sub@, issued_at as int, expires_at as int),
        r matches Some(t) ==> jwt_decoding(secret@, t@) == decoded(sub@, issued_at as int, expires_at as int),
{
    let mut claims = serde_json::Map::new();
    claims.insert("sub".to_owned(), serde_json::Value::from(sub));
    claims.insert("issuedAt".to_owned(), serde_json::Value::from(issued_at));
    claims.insert("expiresAt".to_owned(), serde_json::Value::from(expires_at));
    let key = jsonwebtoken::EncodingKey::from_secret(secret.as_bytes());
    jsonwebtoken::encode(&jsonwebtoken::Header::default(), &claims, &key).ok()
}

/// Relies on jsonwebtoken::decode (HS256, HMAC key made of the secret's bytes, its own expiry
/// check and required claims switched off): the signature is checked first, and a mismatch is
/// the `InvalidSignature` error kind. The outcome depends on the secret and the token alone.
#[verifier::external_body]
fn read_claims(secret: &str, token: &str) -> (r: Result<JwtClaims, TokenFault>)
    ensures
        r matches Ok(c) ==> jwt_decoding(secret@, token@) == decoded(c.sub@, c.issuedAt as int, c.expiresAt as int),
        r matches Err(f) ==> jwt_decoding(secret@, token@) == refused(f),
{
    let mut validation = jsonwebtoken::Validation::default();
    validation.validate_exp = false;
    validation.required_spec_claims.clear();
    let key = jsonwebtoken::DecodingKey::from_secret(secret.as_bytes());
    match jsonwebtoken::decode::<serde_json::Value>(token, &key, &validation) {
        Err(e) if matches!(e.kind(), jsonwebtoken::errors::ErrorKind::InvalidSignature) => Err(TokenFault::InvalidSignature),
        Err(_) => Err(TokenFault::Malformed),
        Ok(data) => match (data.claims["sub"].as_str(), data.claims["issuedAt"].as_i64(), data.claims["expiresAt"].as_i64()) {
            (Some(s), Some(i), Some(e)) => Ok(JwtClaims { sub: s.to_owned(), issuedAt: i, expiresAt: e }),
            _ => Err(TokenFault::Malformed),
        },
    }
}

/// What validating `token` under `secret` at `now` comes to: the subject, or the fault. A
/// readable token whose expiry lies before `now` is expired, whatever its subject.
pub open spec fn session_outcome(secret: Seq<char>, token: Seq<char>, now: int) -> Result<Seq<char>, TokenFault> {
    match jwt_decoding(secret, token) {
        Err(f) => Err(f),
        Ok((sub, _issued_at, expires_at)) => if expires_at < now {
            Err(TokenFault::Expired)
        } else {
            Ok(sub)
        },
    }
}

impl JwtClaims {
    /// Claims for `sub`, issued at `now` and expiring twelve hours later.
    pub fn new(sub: String, now: i64) -> (r: Self)
        requires
            now <= i64::MAX - TOKEN_LIFETIME_SECS,
        ensures
            r.sub == sub,
            r.issuedAt == now,
            r.expiresAt == now + TOKEN_LIFETIME_SECS,
    {
        JwtClaims { sub, issuedAt: now, expiresAt: now + TOKEN_LIFETIME_SECS }
    }
}

/// Issues a session token for the user `id` at `now`, signed with `secret`.
pub fn createJwt(secret: &str, id: &str, now: i64) -> (r: String)
    requires
        now <= i64::MAX - TOKEN_LIFETIME_SECS,
    ensures
        r@ == jwt_encoding(secret@, id@, now as int, now + TOKEN_LIFETIME_SECS),
        jwt_decoding(secret@, r@) == decoded(id@, now as int, now + TOKEN_LIFETIME_SECS),
{
    let claims = JwtClaims::new(id.to_owned(), now);
    sign_claims(secret, claims.sub.as_str(), claims.issuedAt, claims.expiresAt).unwrap()
}

/// Validates `jwt` under `secret` at `now` and returns its subject.
pub fn decodeJwt(secret: &str, jwt: &str, now: i64) -> (r: Result<String, TokenFault>)
    ensures
        match session_outcome(secret@, jwt@, now as int) {
            Ok(sub) => r matches Ok(s) && s@ == sub,
            Err(f) => r == Err::<String, TokenFault>(f),
        },
{
    let claims = read_claims(secret, jwt)?;
    if claims.expiresAt < now {
        return Err(TokenFault::Expired);
    }
    Ok(claims.sub)
}

/// A token read at a time more than its lifetime after its issue is expired, whatever it names.
pub proof fn lemma_token_expires(secret: Seq<char>, token: Seq<char>, now: int)
    requires
        jwt_decoding(secret, token) matches Ok((_sub, issued_at, expires_at)) && expires_at == issued_at
            + TOKEN_LIFETIME_SECS && now > issued_at + TOKEN_LIFETIME_SECS,
    ensures
        session_outcome(secret, token, now) == Err::<Seq<char>, TokenFault>(TokenFault::Expired),
{
}

} // verus!
