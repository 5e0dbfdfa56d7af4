//! Token issuer: minting, validating and extracting bearer tokens.
//!
//! A token signs the claims set `{user_id, issued_at, exp}` with a symmetric
//! HMAC-SHA-class algorithm under a process-wide secret. Signing is
//! deterministic, so the minted token and the claims recovered from a token
//! are both named as functions of their inputs; expiry is checked here, in
//! verified code, against an instant the caller supplies.

use vstd::prelude::*;

use crate::errors::{AuthError, InputFault, TokenFault};
use crate::validate::chars_of;

verus! {

/// The token the issuer mints for the claims set `{user_id, issued_at, exp}`
/// under `secret`. HMAC signing and the claims serialization are
/// deterministic, so this is a function of the four arguments alone.
pub uninterp spec fn jwt_of(user_id: u64, issued_at: u64, exp: u64, secret: Seq<char>) -> Seq<
    char,
>;

/// The claims that signature-checked decoding recovers from `token` under
/// `secret`: `None` when the token is malformed or its signature does not
/// match.
pub uninterp spec fn jwt_claims_of(token: Seq<char>, secret: Seq<char>) -> Option<(u64, u64, u64)>;

/// Relies on jsonwebtoken::encode (HS512): deterministic HMAC signing of the
/// serialized claims set, and jsonwebtoken::decode under the same secret
/// recovers exactly these claims from the minted token. With a secret-derived
/// key this call cannot fail: the HMAC accepts a key of any length, signing
/// is infallible, and so is serializing the header and the claims object.
#[verifier::external_body]
fn encode_claims(user_id: u64, issued_at: u64, exp: u64, secret: &str) -> (r: String)
    ensures
        r@ == jwt_of(user_id, issued_at, exp, secret@),
        jwt_claims_of(r@, secret@) == Some((user_id, issued_at, exp)),
{
    let mut claims = serde_json::Map::new();
    claims.insert("user_id".to_owned(), serde_json::Value::from(user_id));
    claims.insert("issued_at".to_owned(), serde_json::Value::from(issued_at));
    claims.insert("exp".to_owned(), serde_json::Value::from(exp));
    let header = jsonwebtoken::Header::new(jsonwebtoken::Algorithm::HS512);
    let key = jsonwebtoken::EncodingKey::from_secret(secret.as_bytes());
    jsonwebtoken::encode(&header, &serde_json::Value::Object(claims), &key)
        .expect("HMAC signing with a secret-derived key is infallible")
}

/// Relies on jsonwebtoken::decode (HS512): signature checking and claim
/// recovery with the time-based checks turned off, a function of token and
/// secret alone.
#[verifier::external_body]
fn decode_claims(token: &str, secret: &str) -> (r: Option<(u64, u64, u64)>)
    ensures
        r == jwt_claims_of(token@, secret@),
{
    let key = jsonwebtoken::DecodingKey::from_secret(secret.as_bytes());
    let mut validation = jsonwebtoken::Validation::new(jsonwebtoken::Algorithm::HS512);
    validation.validate_exp = false;
    validation.required_spec_claims = std::collections::HashSet::new();
    let data = jsonwebtoken::decode::<serde_json::Value>(token, &key, &validation).ok()?;
    let user_id = data.claims.get("user_id")?.as_u64()?;
    let issued_at = data.claims.get("issued_at")?.as_u64()?;
    let exp = data.claims.get("exp")?.as_u64()?;
    Some((user_id, issued_at, exp))
}

/// Relies on String::push: appends the character to the end of the string.
#[verifier::external_body]
fn push_char(s: &mut String, c: char)
    ensures
        final(s)@ == old(s)@.push(c),
{
    s.push(c);
}

/// Expiry instant of a token issued at `now` living `minutes` minutes.
pub open spec fn spec_expiry(now: u64, minutes: u64) -> int {
    now + minutes * 60
}

/// Mints a token for `user_id`, issued at `now` and expiring `exp_time_mins`
/// minutes later: always the token for exactly those claims when the expiry
/// instant fits the clock's range, and an internal error otherwise.
pub fn sign_jwt(user_id: u64, exp_time_mins: u64, now: u64, secret: &str) -> (r: Result<
    String,
    AuthError,
>)
    ensures
        if spec_expiry(now, exp_time_mins) <= u64::MAX {
            match r {
                Ok(t) => t@ == jwt_of(
                    user_id,
                    now,
                    spec_expiry(now, exp_time_mins) as u64,
                    secret@,
                ) && jwt_claims_of(t@, secret@) == Some(
                    (user_id, now, spec_expiry(now, exp_time_mins) as u64),
                ),
                Err(_) => false,
            }
        } else {
            r == Err::<String, AuthError>(AuthError::InternalError)
        },
{
    let secs = match exp_time_mins.checked_mul(60) {
        Some(s) => s,
        None => {
            return Err(AuthError::InternalError);
        },
    };
    let exp = match now.checked_add(secs) {
        Some(e) => e,
        None => {
            return Err(AuthError::InternalError);
        },
    };
    Ok(encode_claims(user_id, now, exp, secret))
}

/// The validation outcome for `token` under `secret` at instant `now`: the
/// claims' user id when the signature checks and the expiry has not passed.
/// The boundary rule is strict: a token is expired only when `exp < now`, so
/// one expiring exactly now is still accepted.
pub open spec fn spec_validate_jwt(token: Seq<char>, secret: Seq<char>, now: u64) -> Result<
    u64,
    AuthError,
> {
    match jwt_claims_of(token, secret) {
        None => Err(AuthError::Unauthorized(TokenFault::Invalid)),
        Some((user_id, issued_at, exp)) => if exp < now {
            Err(AuthError::Unauthorized(TokenFault::Expired))
        } else {
            Ok(user_id)
        },
    }
}

/// Checks a presented token and returns the user id it was minted for, or
/// the unauthorized kind saying why it was rejected.
pub fn validate_jwt(access_token: &str, secret: &str, now: u64) -> (r: Result<u64, AuthError>)
    ensures
        r == spec_validate_jwt(access_token@, secret@, now),
{
    match decode_claims(access_token, secret) {
        None => Err(AuthError::Unauthorized(TokenFault::Invalid)),
        Some((user_id, _issued_at, exp)) => {
            if exp < now {
                Err(AuthError::Unauthorized(TokenFault::Expired))
            } else {
                Ok(user_id)
            }
        },
    }
}

/// A token fresh from the issuer validates to its user id at every instant
/// up to and through its expiry.
pub proof fn lemma_validate_before_expiry(
    token: Seq<char>,
    secret: Seq<char>,
    user_id: u64,
    issued_at: u64,
    exp: u64,
    now: u64,
)
    requires
        jwt_claims_of(token, secret) == Some((user_id, issued_at, exp)),
        now <= exp,
    ensures
        spec_validate_jwt(token, secret, now) == Ok::<u64, AuthError>(user_id),
{
}

/// A token whose expiry has passed validates to the expired error, whatever
/// its other claims — deterministically, at every later instant.
pub proof fn lemma_validate_after_expiry(
    token: Seq<char>,
    secret: Seq<char>,
    user_id: u64,
    issued_at: u64,
    exp: u64,
    now: u64,
)
    requires
        jwt_claims_of(token, secret) == Some((user_id, issued_at, exp)),
        exp < now,
    ensures
        spec_validate_jwt(token, secret, now) == Err::<u64, AuthError>(
            AuthError::Unauthorized(TokenFault::Expired),
        ),
{
}

/// Whitespace, for splitting the authorization header.
pub open spec fn is_ws_char(c: char) -> bool {
    c == ' ' || c == '\t' || c == '\r' || c == '\n'
}

/// The header opens with exactly `Bearer` and a space.
pub open spec fn bearer_prefix_ok(h: Seq<char>) -> bool {
    &&& h.len() >= 7
    &&& h[0] == 'B'
    &&& h[1] == 'e'
    &&& h[2] == 'a'
    &&& h[3] == 'r'
    &&& h[4] == 'e'
    &&& h[5] == 'r'
    &&& h[6] == ' '
}

/// First index at or past `i` holding a non-whitespace character.
pub open spec fn spec_skip_ws(s: Seq<char>, i: int) -> int
    decreases s.len() - i,
{
    if i >= s.len() || !is_ws_char(s[i]) {
        i
    } else {
        spec_skip_ws(s, i + 1)
    }
}

/// First index at or past `i` holding whitespace (or the end).
pub open spec fn spec_word_end(s: Seq<char>, i: int) -> int
    decreases s.len() - i,
{
    if i >= s.len() || is_ws_char(s[i]) {
        i
    } else {
        spec_word_end(s, i + 1)
    }
}

/// What bearer extraction yields for a header: the first
/// whitespace-separated word after the `Bearer ` prefix, or the input fault
/// it is rejected with — missing, wrong shape, or prefix with no token.
pub open spec fn spec_get_token(h: Seq<char>) -> Result<Seq<char>, InputFault> {
    if h.len() == 0 {
        Err(InputFault::AuthHeaderMissing)
    } else if !bearer_prefix_ok(h) {
        Err(InputFault::AuthHeaderFormat)
    } else {
        let start = spec_skip_ws(h, 7);
        if start >= h.len() {
            Err(InputFault::AuthHeaderNoToken)
        } else {
            Ok(h.subrange(start, spec_word_end(h, start)))
        }
    }
}

/// Whether `c` is header whitespace.
fn ws_char(c: char) -> (b: bool)
    ensures
        b == is_ws_char(c),
{
    c == ' ' || c == '\t' || c == '\r' || c == '\n'
}

/// Extracts the bearer token from an authorization header value.
pub fn get_token(auth_header: &str) -> (r: Result<String, AuthError>)
    ensures
        match spec_get_token(auth_header@) {
            Ok(t) => r matches Ok(s) && s@ == t,
            Err(f) => r == Err::<String, AuthError>(AuthError::InvalidInput(f)),
        },
{
    let v = chars_of(auth_header);
    let n = v.len();
    if n == 0 {
        return Err(AuthError::InvalidInput(InputFault::AuthHeaderMissing));
    }
    let prefix_ok = n >= 7 && v[0] == 'B' && v[1] == 'e' && v[2] == 'a' && v[3] == 'r' && v[4]
        == 'e' && v[5] == 'r' && v[6] == ' ';
    if !prefix_ok {
        return Err(AuthError::InvalidInput(InputFault::AuthHeaderFormat));
    }
    let mut i: usize = 7;
    while i < n && ws_char(v[i])
        invariant
            7 <= i <= n == v@.len(),
            spec_skip_ws(v@, 7) == spec_skip_ws(v@, i as int),
        decreases n - i,
    {
        i += 1;
    }
    let start = i;
    proof {
        assert(spec_skip_ws(v@, start as int) == start as int);
    }
    if start == n {
        return Err(AuthError::InvalidInput(InputFault::AuthHeaderNoToken));
    }
    while i < n && !ws_char(v[i])
        invariant
            start <= i <= n == v@.len(),
            spec_word_end(v@, start as int) == spec_word_end(v@, i as int),
        decreases n - i,
    {
        i += 1;
    }
    let end = i;
    proof {
        assert(spec_word_end(v@, end as int) == end as int);
    }
    let mut token = String::new();
    let mut k: usize = start;
    while k < end
        invariant
            start <= k <= end <= v@.len(),
            token@ == v@.subrange(start as int, k as int),
        decreases end - k,
    {
        push_char(&mut token, v[k]);
        proof {
            assert(token@ =~= v@.subrange(start as int, k + 1));
        }
        k += 1;
    }
    proof {
        assert(token@ == v@.subrange(start as int, end as int));
    }
    Ok(token)
}

} // verus!
