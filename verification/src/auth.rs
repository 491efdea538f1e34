//! Access tokens: issuing and validating HS256-signed JWTs.
//!
//! The signing and the parsing are done by the `jsonwebtoken` crate. What is
//! decided here is which claims go in, when a token has expired, and how a
//! failure is classified.

use crate::models::user::{ClaimsView, TokenClaims};
use jsonwebtoken::errors::ErrorKind;
use jsonwebtoken::{decode, encode, DecodingKey, EncodingKey, Header, Validation};
use serde_json::Value;
use vstd::prelude::*;

verus! {

/// How long an access token stays valid after it was issued: 24 hours.
pub const TOKEN_LIFETIME_SECONDS: i64 = 86_400;

/// Why a token was not accepted. Callers answer all three alike.
#[derive(Debug, Clone, Copy, PartialEq, Eq, Structural)]
pub enum AuthError {
    /// Not a token of ours: wrong shape, wrong algorithm, or claims missing.
    Malformed,
    /// Well formed and signed, but past its expiry.
    Expired,
    /// The signature does not belong to the header and claims.
    BadSignature,
}

/// Why no token was issued.
#[derive(Debug, Clone, Copy, PartialEq, Eq, Structural)]
pub enum IssueError {
    /// The issue time lies before the epoch, or the expiry cannot be represented.
    Clock,
    /// The signer refused.
    Signing,
}

/// How decoding failed, as far as callers need to tell.
#[derive(Debug, Clone, Copy, PartialEq, Eq, Structural)]
pub enum DecodeFailure {
    Signature,
    Other,
}

/// The three claims as found in a decoded token, each absent if the payload
/// does not hold it in the expected JSON type.
#[derive(Debug, Clone)]
pub struct RawClaims {
    pub sub: Option<String>,
    pub role: Option<String>,
    pub exp: Option<u64>,
}

pub struct RawClaimsView {
    pub sub: Option<Seq<char>>,
    pub role: Option<Seq<char>>,
    pub exp: Option<u64>,
}

pub open spec fn text_of(o: Option<String>) -> Option<Seq<char>> {
    match o {
        Some(s) => Some(s@),
        None => None,
    }
}

impl View for RawClaims {
    type V = RawClaimsView;

    open spec fn view(&self) -> RawClaimsView {
        RawClaimsView { sub: text_of(self.sub), role: text_of(self.role), exp: self.exp }
    }
}

pub open spec fn decoded_view(d: Result<RawClaims, DecodeFailure>) -> Result<
    RawClaimsView,
    DecodeFailure,
> {
    match d {
        Ok(raw) => Ok(raw@),
        Err(e) => Err(e),
    }
}

pub open spec fn claims_view(r: Result<TokenClaims, AuthError>) -> Result<ClaimsView, AuthError> {
    match r {
        Ok(c) => Ok(c@),
        Err(e) => Err(e),
    }
}

pub open spec fn token_view(r: Result<String, IssueError>) -> Result<Seq<char>, IssueError> {
    match r {
        Ok(t) => Ok(t@),
        Err(e) => Err(e),
    }
}

/// A successful decoding whose payload holds all three claims.
pub open spec fn decoded_ok(sub: Seq<char>, role: Seq<char>, exp: u64) -> Result<
    RawClaimsView,
    DecodeFailure,
> {
    Ok(RawClaimsView { sub: Some(sub), role: Some(role), exp: Some(exp) })
}

/// The verdict that accepts a token with these claims.
pub open spec fn accepted(sub: Seq<char>, role: Seq<char>, exp: u64) -> Result<
    ClaimsView,
    AuthError,
> {
    Ok(ClaimsView { sub, role, exp: exp as nat })
}

/// The token that `jsonwebtoken::encode` produces for the default header
/// (HS256), the claims object `{sub, role, exp}` and an HMAC key made of
/// `secret`; `None` where it reports an error.
pub uninterp spec fn jwt_encoded(secret: Seq<u8>, sub: Seq<char>, role: Seq<char>, exp: u64) -> Option<Seq<char>>;

/// What `jsonwebtoken::decode` finds in `token` under an HMAC key made of
/// `secret`, with the default validation rules except that the expiry is
/// not compared with the clock.
pub uninterp spec fn jwt_decoded(secret: Seq<u8>, token: Seq<char>) -> Result<RawClaimsView, DecodeFailure>;

/// Position of the last `.` in `s`, or -1 if there is none.
pub open spec fn last_dot(s: Seq<char>) -> int
    decreases s.len(),
{
    if s.len() == 0 {
        -1
    } else if s.last() == '.' {
        s.len() - 1
    } else {
        last_dot(s.drop_last())
    }
}

/// `other` begins with the header, the claims and the second `.` of `token`:
/// it differs from `token`, if at all, only in the signature segment.
pub open spec fn shares_signed_part(token: Seq<char>, other: Seq<char>) -> bool {
    let cut = last_dot(token) + 1;
    cut <= other.len() && other.subrange(0, cut) == token.subrange(0, cut)
}

/// Whether a token can be issued at `now` (seconds since the epoch): the
/// time is not negative and the expiry fits the claim's type.
pub open spec fn issue_time_ok(now: i64) -> bool {
    0 <= now && now + TOKEN_LIFETIME_SECONDS <= i64::MAX && now + TOKEN_LIFETIME_SECONDS
        <= usize::MAX
}

/// The expiry of a token issued at `now`.
pub open spec fn expiry_of(now: i64) -> u64 {
    (now + TOKEN_LIFETIME_SECONDS) as u64
}

/// The verdict on a decoded token at time `now`.
///
/// A decoding failure is passed on by kind. A payload without one of the
/// three claims, or with an expiry beyond `usize`, is malformed. A token is
/// expired from its expiry instant on: `now == exp` is already too late.
pub open spec fn checked_claims(d: Result<RawClaimsView, DecodeFailure>, now: u64) -> Result<
    ClaimsView,
    AuthError,
> {
    match d {
        Err(DecodeFailure::Signature) => Err(AuthError::BadSignature),
        Err(DecodeFailure::Other) => Err(AuthError::Malformed),
        Ok(raw) => match (raw.sub, raw.role, raw.exp) {
            (Some(sub), Some(role), Some(exp)) => if exp > usize::MAX {
                Err(AuthError::Malformed)
            } else if exp <= now {
                Err(AuthError::Expired)
            } else {
                Ok(ClaimsView { sub, role, exp: exp as nat })
            },
            _ => Err(AuthError::Malformed),
        },
    }
}

/// What issuing at `now` comes to, given what the signer returns.
pub open spec fn issued(secret: Seq<u8>, id: Seq<char>, role: Seq<char>, now: i64) -> Result<
    Seq<char>,
    IssueError,
> {
    if !issue_time_ok(now) {
        Err(IssueError::Clock)
    } else {
        match jwt_encoded(secret, id, role, expiry_of(now)) {
            Some(t) => Ok(t),
            None => Err(IssueError::Signing),
        }
    }
}

/// Expiry prevails: a token is refused from its expiry instant on, whether
/// or not its signature is good, and a verdict that accepts names an
/// expiry that still lies ahead.
pub proof fn law_expiry(decoded: Result<RawClaimsView, DecodeFailure>, now: u64)
    ensures
        (decoded matches Ok(raw) && raw.exp matches Some(exp) && exp <= now) ==> checked_claims(
            decoded,
            now,
        ) is Err,
        checked_claims(decoded, now) matches Ok(claims) ==> now < claims.exp,
        checked_claims(decoded, now) is Ok ==> decoded is Ok,
{
}

/// Before its expiry, a payload with all three claims is accepted as it
/// stands.
pub proof fn law_round_trip(sub: Seq<char>, role: Seq<char>, exp: u64, now: u64)
    requires
        exp <= usize::MAX,
        now < exp,
    ensures
        checked_claims(decoded_ok(sub, role, exp), now) == accepted(sub, role, exp),
{
}

/// Calls `jsonwebtoken::encode` with the default header, a JSON object of
/// the three claims and `EncodingKey::from_secret(secret)`.
///
/// Trusted: the result is a function of the arguments; a token it returns
/// decodes under the same secret to the same three claims; and no other
/// text with the same header and claims segments decodes under that secret,
/// because `decode` accepts only the signature it recomputes itself.
#[verifier::external_body]
fn sign_claims(secret: &[u8], sub: &str, role: &str, exp: u64) -> (token: Option<String>)
    ensures
        text_of(token) == jwt_encoded(secret@, sub@, role@, exp),
        token matches Some(t) ==> jwt_decoded(secret@, t@) == decoded_ok(sub@, role@, exp),
        token matches Some(t) ==> forall|other: Seq<char>|
            (#[trigger] jwt_decoded(secret@, other)) is Ok && shares_signed_part(t@, other)
                ==> other == t@,
{
    let mut claims = serde_json::Map::new();
    claims.insert(String::from("sub"), Value::from(sub));
    claims.insert(String::from("role"), Value::from(role));
    claims.insert(String::from("exp"), Value::from(exp));
    encode(&Header::default(), &claims, &EncodingKey::from_secret(secret)).ok()
}

/// Calls `jsonwebtoken::decode` with `DecodingKey::from_secret(secret)` and
/// the default validation, expiry check switched off, and reads the three
/// claims out of the payload.
///
/// Trusted: the result is a function of the arguments.
#[verifier::external_body]
fn decode_token(secret: &[u8], token: &str) -> (decoded: Result<RawClaims, DecodeFailure>)
    ensures
        decoded_view(decoded) == jwt_decoded(secret@, token@),
{
    let mut rules = Validation::default();
    rules.validate_exp = false;
    match decode::<Value>(token, &DecodingKey::from_secret(secret), &rules) {
        Ok(data) => Ok(
            RawClaims {
                sub: data.claims.get("sub").and_then(Value::as_str).map(String::from),
                role: data.claims.get("role").and_then(Value::as_str).map(String::from),
                exp: data.claims.get("exp").and_then(Value::as_u64),
            },
        ),
        Err(e) => match e.kind() {
            ErrorKind::InvalidSignature => Err(DecodeFailure::Signature),
            _ => Err(DecodeFailure::Other),
        },
    }
}

/// `chrono::Utc::now().timestamp()`: the wall clock, in seconds since the
/// epoch. Nothing is assumed of the value. (chrono panics if the system
/// clock stands before the epoch.)
#[verifier::external_body]
pub(crate) fn issue_clock() -> i64 {
    chrono::Utc::now().timestamp()
}

/// `jsonwebtoken::get_current_timestamp()`: the clock that token validation
/// goes by. Nothing is assumed of the value. (It panics if the system clock
/// stands before the epoch.)
#[verifier::external_body]
pub(crate) fn validation_clock() -> u64 {
    jsonwebtoken::get_current_timestamp()
}

/// Issues an access token for `id` in `role` as of `now`, valid for 24 hours.
///
/// A token that comes out validates, at any instant before its expiry, to
/// exactly the subject and role that went in; and any other text that
/// keeps its header and claims segments is refused by the decoder.
pub fn create_jwt_at(secret: &[u8], id: &str, role: &str, now: i64) -> (r: Result<
    String,
    IssueError,
>)
    ensures
        token_view(r) == issued(secret@, id@, role@, now),
        r matches Ok(t) ==> forall|at: u64|
            at < expiry_of(now) ==> #[trigger] checked_claims(jwt_decoded(secret@, t@), at)
                == accepted(id@, role@, expiry_of(now)),
        r matches Ok(t) ==> forall|other: Seq<char>, at: u64|
            other != t@ && shares_signed_part(t@, other) ==> (#[trigger] checked_claims(
                jwt_decoded(secret@, other),
                at,
            )) is Err,
{
    if now < 0 || now > i64::MAX - TOKEN_LIFETIME_SECONDS {
        return Err(IssueError::Clock);
    }
    let exp: u64 = (now + TOKEN_LIFETIME_SECONDS) as u64;
    if exp > usize::MAX as u64 {
        return Err(IssueError::Clock);
    }
    match sign_claims(secret, id, role, exp) {
        Some(t) => Ok(t),
        None => Err(IssueError::Signing),
    }
}

/// Issues an access token for `id` in `role`, valid for 24 hours from now.
///
/// Which instant "now" is, the clock decides. Whatever it is, a token that
/// comes out validates before its expiry to the subject and role that went
/// in, and no other text with its header and claims segments is accepted.
pub fn create_jwt(secret: &[u8], id: &str, role: &str) -> (r: Result<String, IssueError>)
    ensures
        exists|now: i64| token_view(r) == #[trigger] issued(secret@, id@, role@, now),
        r matches Ok(t) ==> exists|now: i64| #[trigger]
            issue_time_ok(now) && forall|at: u64|
                at < expiry_of(now) ==> #[trigger] checked_claims(jwt_decoded(secret@, t@), at)
                    == accepted(id@, role@, expiry_of(now)),
        r matches Ok(t) ==> forall|other: Seq<char>, at: u64|
            other != t@ && shares_signed_part(t@, other) ==> (#[trigger] checked_claims(
                jwt_decoded(secret@, other),
                at,
            )) is Err,
{
    let now = issue_clock();
    let r = create_jwt_at(secret, id, role, now);
    assert(token_view(r) == issued(secret@, id@, role@, now));
    assert(r is Ok ==> issue_time_ok(now));
    r
}

/// The verdict on what the decoder returned, at time `now`.
pub fn check_claims(decoded: Result<RawClaims, DecodeFailure>, now: u64) -> (r: Result<
    TokenClaims,
    AuthError,
>)
    ensures
        claims_view(r) == checked_claims(decoded_view(decoded), now),
        r matches Ok(claims) ==> now < claims.exp,
{
    match decoded {
        Err(DecodeFailure::Signature) => Err(AuthError::BadSignature),
        Err(DecodeFailure::Other) => Err(AuthError::Malformed),
        Ok(raw) => {
            let RawClaims { sub, role, exp } = raw;
            match (sub, role, exp) {
                (Some(sub), Some(role), Some(exp)) => {
                    if exp > usize::MAX as u64 {
                        Err(AuthError::Malformed)
                    } else if exp <= now {
                        Err(AuthError::Expired)
                    } else {
                        Ok(TokenClaims { sub, role, exp: exp as usize })
                    }
                },
                _ => Err(AuthError::Malformed),
            }
        },
    }
}

/// Validates `token` as of `now`: signature first, then the claims, then
/// the expiry.
pub fn validate_jwt_at(secret: &[u8], token: &str, now: u64) -> (r: Result<TokenClaims, AuthError>)
    ensures
        claims_view(r) == checked_claims(jwt_decoded(secret@, token@), now),
        r matches Ok(claims) ==> now < claims.exp,
{
    check_claims(decode_token(secret, token), now)
}

/// Validates `token` against the current time.
pub fn validate_jwt(secret: &[u8], token: &str) -> (r: Result<TokenClaims, AuthError>)
    ensures
        exists|now: u64|
            claims_view(r) == #[trigger] checked_claims(jwt_decoded(secret@, token@), now),
{
    let now = validation_clock();
    let r = validate_jwt_at(secret, token, now);
    r
}

} // verus!
