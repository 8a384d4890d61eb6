//! The authenticated request protocol.
//!
//! One logical request is an exchange of at most two sends. The first send
//! carries the session's current anti-forgery token, if any. A client-error
//! response (4xx) is the server's challenge: the fresh token in its
//! `x-csrf-token` response header is stored and the identical request is
//! re-issued once carrying it. The retried response's outcome is final.
//! Token refresh is reactive: the protocol never asks for a token in
//! advance, and it never retries twice.
//!
//! The transport drives [`RequestFlow`] as a state machine: it performs the
//! sends and hands each response's status and token header back to
//! [`RequestFlow::on_response`], which decides the next action.

use vstd::prelude::*;
use vstd::string::StringExecFns;

use crate::Session;
use crate::errors::{ApiError, RobloxApiErrorResponse, spec_is_empty, spec_reason};

verus! {

/// Where a request exchange stands.
pub enum FlowPhase {
    /// The first send is in flight.
    SentFirst,
    /// The single token-refresh retry is in flight.
    SentRetry,
    /// The exchange is over; no further send will be issued.
    Settled,
}

/// One logical request exchange against a session.
pub struct RequestFlow {
    pub phase: FlowPhase,
}

/// What the transport must do next with the exchange.
pub enum FlowStep {
    /// Re-issue the identical request carrying this token header.
    Send { token: Option<String> },
    /// The exchange is over: decode the body of the response that carried
    /// this status.
    Decode { status: u16 },
    /// The exchange is over: a challenged request had no token to retry
    /// with, a logic fault surfaced as `SetupFailed`.
    Fail,
}

/// A client-error status: the server's token challenge.
pub open spec fn is_client_error(status: u16) -> bool {
    400 <= status < 500
}

/// One transition of the request protocol: from the flow's phase, the
/// session's stored token, and a response (status plus token header) to the
/// next phase, the token stored afterwards, and the action to take.
pub open spec fn spec_flow_next(
    phase: FlowPhase,
    token: Option<String>,
    status: u16,
    header: Option<String>,
) -> (FlowPhase, Option<String>, FlowStep) {
    match phase {
        FlowPhase::SentFirst => {
            if is_client_error(status) {
                match header {
                    Some(fresh) => (
                        FlowPhase::SentRetry,
                        Some(fresh),
                        FlowStep::Send { token: Some(fresh) },
                    ),
                    None => match token {
                        Some(prior) => (
                            FlowPhase::SentRetry,
                            Some(prior),
                            FlowStep::Send { token: Some(prior) },
                        ),
                        None => (FlowPhase::Settled, None, FlowStep::Fail),
                    },
                }
            } else {
                (FlowPhase::Settled, token, FlowStep::Decode { status })
            }
        },
        FlowPhase::SentRetry => (FlowPhase::Settled, token, FlowStep::Decode { status }),
        FlowPhase::Settled => (FlowPhase::Settled, token, FlowStep::Fail),
    }
}

impl RequestFlow {
    /// Begin one exchange: the first send carries the session's current
    /// token, absent or not.
    pub fn start(session: &Session) -> (r: (RequestFlow, Option<String>))
        ensures
            r.0.phase is SentFirst,
            r.1 == session.token,
    {
        let token = match &session.token {
            Some(t) => Some(t.clone()),
            None => None,
        };
        (RequestFlow { phase: FlowPhase::SentFirst }, token)
    }

    /// Take one response and decide the next action, refreshing the
    /// session's token when the server issued one in a challenge.
    pub fn on_response(
        &mut self,
        session: &mut Session,
        status: u16,
        header: Option<String>,
    ) -> (step: FlowStep)
        requires
            !(old(self).phase is Settled),
        ensures
            (final(self).phase, final(session).token, step) == spec_flow_next(
                old(self).phase,
                old(session).token,
                status,
                header,
            ),
    {
        match self.phase {
            FlowPhase::SentFirst => {
                if 400 <= status && status < 500 {
                    match header {
                        Some(fresh) => {
                            let step = FlowStep::Send { token: Some(fresh.clone()) };
                            session.token = Some(fresh);
                            self.phase = FlowPhase::SentRetry;
                            step
                        },
                        None => match &session.token {
                            Some(prior) => {
                                let step = FlowStep::Send { token: Some(prior.clone()) };
                                self.phase = FlowPhase::SentRetry;
                                step
                            },
                            None => {
                                self.phase = FlowPhase::Settled;
                                FlowStep::Fail
                            },
                        },
                    }
                } else {
                    self.phase = FlowPhase::Settled;
                    FlowStep::Decode { status }
                }
            },
            FlowPhase::SentRetry => {
                self.phase = FlowPhase::Settled;
                FlowStep::Decode { status }
            },
            FlowPhase::Settled => vstd::pervasive::unreached(),
        }
    }
}

/// Token refresh: a session with no token whose first request is rejected
/// with a client error carrying a fresh token `t1` issues exactly one
/// retried send carrying `t1`, stores `t1` as the session token, and the
/// retried response — whatever it is — never triggers a further send.
pub proof fn lemma_token_refresh(
    status: u16,
    t1: String,
    retry_status: u16,
    retry_header: Option<String>,
)
    requires
        is_client_error(status),
    ensures
        ({
            let (phase1, token1, step1) = spec_flow_next(
                FlowPhase::SentFirst,
                None,
                status,
                Some(t1),
            );
            &&& step1 == (FlowStep::Send { token: Some(t1) })
            &&& token1 == Some(t1)
            &&& phase1 is SentRetry
            &&& !(spec_flow_next(phase1, token1, retry_status, retry_header).2 is Send)
        }),
{
}

/// The token is never lost and never invented: a send carries exactly the
/// token stored after the transition, a stored token is only replaced by a
/// fresher one observed in a response header, and once a token is stored
/// every retried send carries one.
pub proof fn lemma_token_attached(
    phase: FlowPhase,
    token: Option<String>,
    status: u16,
    header: Option<String>,
)
    ensures
        ({
            let (next_phase, next_token, step) = spec_flow_next(phase, token, status, header);
            &&& (step matches FlowStep::Send { token: sent } ==> sent == next_token
                && sent is Some)
            &&& (token is Some ==> next_token is Some)
            &&& (next_token != token ==> header is Some && next_token == header)
        }),
{
}

/// No double retry: once the single retry has been sent, every response
/// settles the exchange with a decode of that very response; a third
/// request is never issued.
pub proof fn lemma_no_double_retry(token: Option<String>, status: u16, header: Option<String>)
    ensures
        spec_flow_next(FlowPhase::SentRetry, token, status, header).0 is Settled,
        spec_flow_next(FlowPhase::SentRetry, token, status, header).2 == (FlowStep::Decode {
            status,
        }),
        !(spec_flow_next(FlowPhase::SentRetry, token, status, header).2 is Send),
{
}

/// Resolve a completed exchange's body.
///
/// `envelope` is the body read as the error envelope where it matched that
/// shape, and `parsed` the body read as the caller's target type. A
/// non-empty envelope wins: the exchange fails with the envelope's resolved
/// reason (or "Unknown error" where the envelope is non-empty yet yields no
/// reason). Otherwise the typed parse decides between the value and
/// `ParseJson`.
pub fn decode_body<T>(
    status: u16,
    envelope: Option<RobloxApiErrorResponse>,
    parsed: Result<T, String>,
) -> (r: Result<T, ApiError>)
    ensures
        (envelope matches Some(e) && !spec_is_empty(e)) ==> (r matches Err(
            ApiError::Roblox { status_code, reason },
        ) && status_code == status && (match spec_reason(envelope->0) {
            Some(v) => reason@ == v,
            None => reason@ == "Unknown error"@,
        })),
        (envelope is None || spec_is_empty(envelope->0)) ==> (match parsed {
            Ok(t) => r == Ok::<T, ApiError>(t),
            Err(m) => r == Err::<T, ApiError>(ApiError::ParseJson { reason: m }),
        }),
{
    if let Some(e) = &envelope {
        if !e.is_empty() {
            let reason = match e.reason() {
                Some(found) => found,
                None => String::from_str("Unknown error"),
            };
            return Err(ApiError::Roblox { status_code: status, reason });
        }
    }
    match parsed {
        Ok(t) => Ok(t),
        Err(m) => Err(ApiError::ParseJson { reason: m }),
    }
}

impl Session {
    /// The token a state-mutating POST must carry: the current token, or
    /// `SetupFailed` when no token has ever been obtained — the caller must
    /// have driven at least one challenged request first.
    pub fn token_for_post(&self) -> (r: Result<String, ApiError>)
        ensures
            match self.token {
                Some(t) => r == Ok::<String, ApiError>(t),
                None => r matches Err(e) && e is SetupFailed,
            },
    {
        match &self.token {
            Some(t) => Ok(t.clone()),
            None => Err(ApiError::SetupFailed),
        }
    }
}

} // verus!
