//! The request gate: public routes pass, protected routes need a valid
//! bearer token.
//!
//! Visibility is declared per route in a table rather than inferred from
//! the path by scattered string tests. The first rule that matches a path
//! decides; a path that no rule matches is protected.

use crate::auth::{checked_claims, jwt_decoded, validate_jwt_at, validation_clock, AuthError};
use crate::models::user::{ClaimsView, TokenClaims};
use crate::text::{has_prefix, skip_chars, str_eq};
use vstd::prelude::*;
use vstd::string::*;

verus! {

#[derive(Debug, Clone, Copy, PartialEq, Eq, Structural)]
pub enum Visibility {
    Public,
    Protected,
}

/// How a rule's pattern is held against a path.
#[derive(Debug, Clone, Copy, PartialEq, Eq, Structural)]
pub enum Matching {
    /// The path is the pattern.
    Exact,
    /// The path begins with the pattern.
    Prefix,
}

/// One line of the route table.
#[derive(Debug, Clone)]
pub struct RouteRule {
    pub pattern: String,
    pub matching: Matching,
    pub visibility: Visibility,
}

pub open spec fn rule_matches(rule: RouteRule, path: Seq<char>) -> bool {
    match rule.matching {
        Matching::Exact => path == rule.pattern@,
        Matching::Prefix => rule.pattern@.is_prefix_of(path),
    }
}

/// The visibility that the rules from position `from` on give to `path`.
pub open spec fn visibility_from(rules: Seq<RouteRule>, path: Seq<char>, from: int) -> Visibility
    decreases rules.len() - from,
{
    if from < 0 || from >= rules.len() {
        Visibility::Protected
    } else if rule_matches(rules[from], path) {
        rules[from].visibility
    } else {
        visibility_from(rules, path, from + 1)
    }
}

/// The visibility of `path` under a route table: that of the first rule
/// that matches, protected if none does.
pub open spec fn visibility_of(rules: Seq<RouteRule>, path: Seq<char>) -> Visibility {
    visibility_from(rules, path, 0)
}

/// The paths that need no credential in the standard table: the login,
/// register and refresh endpoints and the static assets by prefix, the
/// public read endpoints and the root exactly.
pub open spec fn is_public_path(path: Seq<char>) -> bool {
    ||| "/api/login"@.is_prefix_of(path)
    ||| "/api/register"@.is_prefix_of(path)
    ||| "/static"@.is_prefix_of(path)
    ||| "/api/refresh"@.is_prefix_of(path)
    ||| path == "/api/anime"@
    ||| path == "/api/donghua"@
    ||| path == "/api/movies"@
    ||| path == "/api/schedule"@
    ||| path == "/api/search"@
    ||| path == "/api/all"@
    ||| path == "/api/genres"@
    ||| path == "/"@
}

/// The token in an `Authorization` header value of the bearer scheme.
pub open spec fn bearer_of(header: Seq<char>) -> Option<Seq<char>> {
    if "Bearer "@.is_prefix_of(header) {
        Some(header.skip(7))
    } else {
        None
    }
}

/// How the request gate disposes of a request.
#[derive(Debug, Clone, PartialEq, Eq)]
pub enum GateDecision {
    /// A public route: forward, whatever credential came along.
    PublicAllowed,
    /// A protected route and a valid token: forward with the claims attached.
    Authorized(TokenClaims),
    /// A protected route without a valid bearer token: answer 401, and do
    /// not run the handler.
    Rejected,
}

pub enum GateView {
    PublicAllowed,
    Authorized(ClaimsView),
    Rejected,
}

impl View for GateDecision {
    type V = GateView;

    open spec fn view(&self) -> GateView {
        match self {
            GateDecision::PublicAllowed => GateView::PublicAllowed,
            GateDecision::Authorized(c) => GateView::Authorized(c@),
            GateDecision::Rejected => GateView::Rejected,
        }
    }
}

/// The verdict on a protected route, given the header and the time.
pub open spec fn protected_decision(
    secret: Seq<u8>,
    authorization: Option<Seq<char>>,
    now: u64,
) -> GateView {
    match authorization {
        None => GateView::Rejected,
        Some(header) => match bearer_of(header) {
            None => GateView::Rejected,
            Some(token) => match checked_claims(jwt_decoded(secret, token), now) {
                Ok(claims) => GateView::Authorized(claims),
                Err(_) => GateView::Rejected,
            },
        },
    }
}

/// The request gate as a function: classify the path, and on a protected route
/// check the credential.
pub open spec fn gate_decision(
    rules: Seq<RouteRule>,
    secret: Seq<u8>,
    path: Seq<char>,
    authorization: Option<Seq<char>>,
    now: u64,
) -> GateView {
    match visibility_of(rules, path) {
        Visibility::Public => GateView::PublicAllowed,
        Visibility::Protected => protected_decision(secret, authorization, now),
    }
}

/// Public routes are exempt, protected routes are not.
///
/// On a public route the request passes with or without a header. On a
/// protected route a request without a header is rejected, and a request
/// is authorized only on a bearer token that validates at `now` to the
/// claims attached, whose expiry then lies ahead.
pub proof fn law_public_exemption(
    rules: Seq<RouteRule>,
    secret: Seq<u8>,
    path: Seq<char>,
    authorization: Option<Seq<char>>,
    now: u64,
)
    ensures
        visibility_of(rules, path) == Visibility::Public ==> gate_decision(
            rules,
            secret,
            path,
            authorization,
            now,
        ) == GateView::PublicAllowed,
        visibility_of(rules, path) == Visibility::Protected ==> gate_decision(
            rules,
            secret,
            path,
            None,
            now,
        ) == GateView::Rejected,
        gate_decision(rules, secret, path, authorization, now) matches GateView::Authorized(claims)
            ==> {
            &&& visibility_of(rules, path) == Visibility::Protected
            &&& authorization matches Some(header)
            &&& bearer_of(header) matches Some(token)
            &&& claims_ok(claims) == checked_claims(jwt_decoded(secret, token), now)
            &&& now < claims.exp
        },
{
}

pub open spec fn claims_ok(claims: ClaimsView) -> Result<ClaimsView, AuthError> {
    Ok(claims)
}

pub open spec fn header_view(authorization: Option<&str>) -> Option<Seq<char>> {
    match authorization {
        Some(h) => Some(h@),
        None => None,
    }
}

pub open spec fn token_text(token: Option<&str>) -> Option<Seq<char>> {
    match token {
        Some(t) => Some(t@),
        None => None,
    }
}

/// The status of the answer to a rejected request.
pub const UNAUTHORIZED: u16 = 401;

/// The one message that every rejection carries, so that the answer does
/// not tell a missing credential from a forged or an expired one.
pub fn rejection_message() -> (message: &'static str)
    ensures
        message@ == "Unauthorized"@,
{
    "Unauthorized"
}

/// Whether `rule` applies to `path`.
pub fn matches_rule(rule: &RouteRule, path: &str) -> (yes: bool)
    ensures
        yes == rule_matches(*rule, path@),
{
    match rule.matching {
        Matching::Exact => str_eq(path, rule.pattern.as_str()),
        Matching::Prefix => has_prefix(path, rule.pattern.as_str()),
    }
}

/// Looks `path` up in a route table.
pub fn classify(rules: &Vec<RouteRule>, path: &str) -> (v: Visibility)
    ensures
        v == visibility_of(rules@, path@),
{
    let mut i: usize = 0;
    while i < rules.len()
        invariant
            i <= rules.len(),
            visibility_of(rules@, path@) == visibility_from(rules@, path@, i as int),
        decreases rules.len() - i,
    {
        if matches_rule(&rules[i], path) {
            return rules[i].visibility;
        }
        i += 1;
    }
    Visibility::Protected
}

/// The token of a bearer-scheme header value, if it is one.
pub fn bearer_token(header: &str) -> (token: Option<&str>)
    ensures
        token_text(token) == bearer_of(header@),
{
    proof {
        reveal_strlit("Bearer ");
    }
    if has_prefix(header, "Bearer ") {
        Some(skip_chars(header, 7))
    } else {
        None
    }
}

fn rule(pattern: &str, matching: Matching, visibility: Visibility) -> (r: RouteRule)
    ensures
        r.pattern@ == pattern@,
        r.matching == matching,
        r.visibility == visibility,
{
    RouteRule { pattern: String::from_str(pattern), matching, visibility }
}

/// The standard route table.
pub fn default_routes() -> (rules: Vec<RouteRule>)
    ensures
        forall|path: Seq<char>|
            (#[trigger] visibility_of(rules@, path) == Visibility::Public) == is_public_path(path),
{
    let mut rules: Vec<RouteRule> = Vec::new();
    rules.push(rule("/api/login", Matching::Prefix, Visibility::Public));
    rules.push(rule("/api/register", Matching::Prefix, Visibility::Public));
    rules.push(rule("/static", Matching::Prefix, Visibility::Public));
    rules.push(rule("/api/refresh", Matching::Prefix, Visibility::Public));
    rules.push(rule("/api/anime", Matching::Exact, Visibility::Public));
    rules.push(rule("/api/donghua", Matching::Exact, Visibility::Public));
    rules.push(rule("/api/movies", Matching::Exact, Visibility::Public));
    rules.push(rule("/api/schedule", Matching::Exact, Visibility::Public));
    rules.push(rule("/api/search", Matching::Exact, Visibility::Public));
    rules.push(rule("/api/all", Matching::Exact, Visibility::Public));
    rules.push(rule("/api/genres", Matching::Exact, Visibility::Public));
    rules.push(rule("/", Matching::Exact, Visibility::Public));
    proof {
        reveal_with_fuel(visibility_from, 13);
    }
    rules
}

/// The request gate's configuration, made once at startup and handed to every
/// worker: the signing secret and the route table.
#[derive(Debug, Clone)]
pub struct JwtAuth {
    pub secret: Vec<u8>,
    pub routes: Vec<RouteRule>,
}

/// The request gate itself, one per worker.
#[derive(Debug, Clone)]
pub struct JwtAuthMiddleware {
    pub secret: Vec<u8>,
    pub routes: Vec<RouteRule>,
}

fn copy_bytes(source: &Vec<u8>) -> (copy: Vec<u8>)
    ensures
        copy@ == source@,
{
    let mut copy: Vec<u8> = Vec::new();
    let mut i: usize = 0;
    while i < source.len()
        invariant
            i <= source.len(),
            copy@ == source@.take(i as int),
        decreases source.len() - i,
    {
        copy.push(source[i]);
        i += 1;
        assert(copy@ =~= source@.take(i as int));
    }
    assert(source@.take(source.len() as int) =~= source@);
    copy
}

fn copy_routes(source: &Vec<RouteRule>) -> (copy: Vec<RouteRule>)
    ensures
        copy@ == source@,
{
    let mut copy: Vec<RouteRule> = Vec::new();
    let mut i: usize = 0;
    while i < source.len()
        invariant
            i <= source.len(),
            copy@ == source@.take(i as int),
        decreases source.len() - i,
    {
        let from = &source[i];
        copy.push(
            RouteRule {
                pattern: from.pattern.clone(),
                matching: from.matching,
                visibility: from.visibility,
            },
        );
        i += 1;
        assert(copy@ =~= source@.take(i as int));
    }
    assert(source@.take(source.len() as int) =~= source@);
    copy
}

impl JwtAuth {
    /// A gate configuration with the standard route table.
    pub fn new(secret: Vec<u8>) -> (config: JwtAuth)
        ensures
            config.secret@ == secret@,
            forall|path: Seq<char>|
                (#[trigger] visibility_of(config.routes@, path) == Visibility::Public)
                    == is_public_path(path),
    {
        JwtAuth { secret, routes: default_routes() }
    }

    /// A gate configuration with a route table of the caller's own.
    pub fn with_routes(secret: Vec<u8>, routes: Vec<RouteRule>) -> (config: JwtAuth)
        ensures
            config.secret@ == secret@,
            config.routes@ == routes@,
    {
        JwtAuth { secret, routes }
    }

    /// Makes a gate that decides by this configuration.
    pub fn new_transform(&self) -> (gate: JwtAuthMiddleware)
        ensures
            gate.secret@ == self.secret@,
            gate.routes@ == self.routes@,
    {
        JwtAuthMiddleware { secret: copy_bytes(&self.secret), routes: copy_routes(&self.routes) }
    }
}

impl JwtAuthMiddleware {
    /// Decides a request on a protected route: from checking to authorized
    /// or rejected.
    pub fn authorize_at(&self, authorization: Option<&str>, now: u64) -> (decision: GateDecision)
        ensures
            decision@ == protected_decision(self.secret@, header_view(authorization), now),
            authorization is None ==> decision == GateDecision::Rejected,
    {
        let header = match authorization {
            Some(h) => h,
            None => {
                return GateDecision::Rejected;
            },
        };
        let token = match bearer_token(header) {
            Some(t) => t,
            None => {
                return GateDecision::Rejected;
            },
        };
        match validate_jwt_at(self.secret.as_slice(), token, now) {
            Ok(claims) => GateDecision::Authorized(claims),
            Err(_) => GateDecision::Rejected,
        }
    }

    /// Decides a request as of `now`.
    ///
    /// A public route is let through whether or not a credential came with
    /// the request. A protected route without a header is rejected.
    pub fn call_at(&self, path: &str, authorization: Option<&str>, now: u64) -> (decision:
        GateDecision)
        ensures
            decision@ == gate_decision(
                self.routes@,
                self.secret@,
                path@,
                header_view(authorization),
                now,
            ),
            visibility_of(self.routes@, path@) == Visibility::Public ==> decision
                == GateDecision::PublicAllowed,
            visibility_of(self.routes@, path@) == Visibility::Protected && authorization is None
                ==> decision == GateDecision::Rejected,
    {
        match classify(&self.routes, path) {
            Visibility::Public => GateDecision::PublicAllowed,
            Visibility::Protected => self.authorize_at(authorization, now),
        }
    }

    /// Decides a request against the current time.
    pub fn call(&self, path: &str, authorization: Option<&str>) -> (decision: GateDecision)
        ensures
            exists|now: u64|
                decision@ == #[trigger] gate_decision(
                    self.routes@,
                    self.secret@,
                    path@,
                    header_view(authorization),
                    now,
                ),
            visibility_of(self.routes@, path@) == Visibility::Public ==> decision
                == GateDecision::PublicAllowed,
            visibility_of(self.routes@, path@) == Visibility::Protected && authorization is None
                ==> decision == GateDecision::Rejected,
    {
        let now = validation_clock();
        let decision = self.call_at(path, authorization, now);
        decision
    }
}

} // verus!
