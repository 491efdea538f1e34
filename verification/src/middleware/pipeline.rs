//! The two middlewares in their order: the rate limiter outside, the request gate
//! inside, the handler innermost.
//!
//! A flood is turned away before any work is spent on its credentials, on
//! public routes as on protected ones.

use crate::auth::validation_clock;
use crate::middleware::auth::{
    gate_decision, header_view, GateDecision, GateView, JwtAuth, JwtAuthMiddleware, RouteRule,
};
use crate::middleware::limiter::{
    counted_view, counter_key, identity_of, peer_view, rate_decision, CounterCommand, RateDecision,
    RateLimit, RateLimitMiddleware, StoreUnavailable,
};
use crate::models::user::{ClaimsView, TokenClaims};
use vstd::prelude::*;

verus! {

/// What becomes of a request.
#[derive(Debug, Clone, PartialEq, Eq)]
pub enum Verdict {
    /// Run the handler. `claims` are those of the token on a protected
    /// route, none on a public one. `degraded` says that the request went
    /// uncounted because the store gave no answer, which is worth a log line.
    Forward { claims: Option<TokenClaims>, degraded: bool },
    /// Answer 401; the handler does not run.
    Unauthorized,
    /// Answer 429; neither the request gate nor the handler runs.
    TooManyRequests,
}

pub enum VerdictView {
    Forward { claims: Option<ClaimsView>, degraded: bool },
    Unauthorized,
    TooManyRequests,
}

pub open spec fn attached(claims: Option<TokenClaims>) -> Option<ClaimsView> {
    match claims {
        Some(c) => Some(c@),
        None => None,
    }
}

impl View for Verdict {
    type V = VerdictView;

    open spec fn view(&self) -> VerdictView {
        match self {
            Verdict::Forward { claims, degraded } => VerdictView::Forward {
                claims: attached(*claims),
                degraded: *degraded,
            },
            Verdict::Unauthorized => VerdictView::Unauthorized,
            Verdict::TooManyRequests => VerdictView::TooManyRequests,
        }
    }
}

/// What the request gate's decision comes to, for a request that the limiter let
/// through.
pub open spec fn gate_verdict(gate: GateView, degraded: bool) -> VerdictView {
    match gate {
        GateView::PublicAllowed => VerdictView::Forward { claims: None, degraded },
        GateView::Authorized(claims) => VerdictView::Forward { claims: Some(claims), degraded },
        GateView::Rejected => VerdictView::Unauthorized,
    }
}

/// The chain as a function: the limiter first, and the request gate only for what
/// the limiter lets through.
pub open spec fn chain_verdict(
    limit: u64,
    rules: Seq<RouteRule>,
    secret: Seq<u8>,
    counted: Option<u64>,
    path: Seq<char>,
    authorization: Option<Seq<char>>,
    now: u64,
) -> VerdictView {
    match rate_decision(limit, counted) {
        RateDecision::Reject => VerdictView::TooManyRequests,
        RateDecision::Forward => gate_verdict(
            gate_decision(rules, secret, path, authorization, now),
            false,
        ),
        RateDecision::ForwardDegraded => gate_verdict(
            gate_decision(rules, secret, path, authorization, now),
            true,
        ),
    }
}

/// The limiter and the request gate, wired outer to inner.
#[derive(Debug, Clone)]
pub struct Pipeline {
    pub limiter: RateLimitMiddleware,
    pub gate: JwtAuthMiddleware,
}

fn after_gate(decision: GateDecision, degraded: bool) -> (verdict: Verdict)
    ensures
        verdict@ == gate_verdict(decision@, degraded),
{
    match decision {
        GateDecision::PublicAllowed => Verdict::Forward { claims: None, degraded },
        GateDecision::Authorized(claims) => Verdict::Forward { claims: Some(claims), degraded },
        GateDecision::Rejected => Verdict::Unauthorized,
    }
}

impl Pipeline {
    /// Wires a limiter of policy `limit` around a gate of configuration `auth`.
    pub fn new(limit: &RateLimit, auth: &JwtAuth) -> (chain: Pipeline)
        ensures
            chain.limiter.limit == limit.limit,
            chain.limiter.window_seconds == limit.window_seconds,
            chain.gate.secret@ == auth.secret@,
            chain.gate.routes@ == auth.routes@,
    {
        Pipeline { limiter: limit.new_transform(), gate: auth.new_transform() }
    }

    /// First half of a request: which counter the store is to bump.
    pub fn call(&self, peer: Option<&str>) -> (command: CounterCommand)
        ensures
            command.key@ == counter_key(identity_of(peer_view(peer))),
            command.window_seconds == self.limiter.window_seconds,
    {
        self.limiter.call(peer)
    }

    /// Second half, as of `now`: the verdict, given the store's answer.
    ///
    /// A count over the limit is answered 429 on any route. A store that
    /// gave no count changes nothing but the `degraded` mark.
    pub fn resume_at(
        &self,
        counted: Result<u64, StoreUnavailable>,
        path: &str,
        authorization: Option<&str>,
        now: u64,
    ) -> (verdict: Verdict)
        ensures
            verdict@ == chain_verdict(
                self.limiter.limit,
                self.gate.routes@,
                self.gate.secret@,
                counted_view(counted),
                path@,
                header_view(authorization),
                now,
            ),
            (counted matches Ok(n) && n > self.limiter.limit) <==> verdict
                == Verdict::TooManyRequests,
            counted is Err ==> verdict@ == gate_verdict(
                gate_decision(
                    self.gate.routes@,
                    self.gate.secret@,
                    path@,
                    header_view(authorization),
                    now,
                ),
                true,
            ),
    {
        match self.limiter.resume(counted) {
            RateDecision::Reject => Verdict::TooManyRequests,
            RateDecision::Forward => after_gate(
                self.gate.call_at(path, authorization, now),
                false,
            ),
            RateDecision::ForwardDegraded => after_gate(
                self.gate.call_at(path, authorization, now),
                true,
            ),
        }
    }

    /// Second half, against the current time.
    pub fn resume(
        &self,
        counted: Result<u64, StoreUnavailable>,
        path: &str,
        authorization: Option<&str>,
    ) -> (verdict: Verdict)
        ensures
            exists|now: u64|
                verdict@ == #[trigger] chain_verdict(
                    self.limiter.limit,
                    self.gate.routes@,
                    self.gate.secret@,
                    counted_view(counted),
                    path@,
                    header_view(authorization),
                    now,
                ),
            (counted matches Ok(n) && n > self.limiter.limit) <==> verdict
                == Verdict::TooManyRequests,
    {
        let degraded = match self.limiter.resume(counted) {
            RateDecision::Reject => {
                assert(Verdict::TooManyRequests@ == chain_verdict(
                    self.limiter.limit,
                    self.gate.routes@,
                    self.gate.secret@,
                    counted_view(counted),
                    path@,
                    header_view(authorization),
                    0,
                ));
                return Verdict::TooManyRequests;
            },
            RateDecision::Forward => false,
            RateDecision::ForwardDegraded => true,
        };
        let now = validation_clock();
        let verdict = after_gate(self.gate.call_at(path, authorization, now), degraded);
        assert(verdict@ == chain_verdict(
            self.limiter.limit,
            self.gate.routes@,
            self.gate.secret@,
            counted_view(counted),
            path@,
            header_view(authorization),
            now,
        ));
        verdict
    }
}

} // verus!
