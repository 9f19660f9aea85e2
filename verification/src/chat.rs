//! Chat sessions and responses: the scores a response carries are held
//! against the limit of the session it belongs to.

use vstd::prelude::*;
use crate::fixed::{in_unit_interval, ONE};
use crate::ker::{KerMetrics, KerTriple};

verus! {

/// The slack by which a response may exceed the session's risk limit: one
/// billionth.
pub const RISK_TOLERANCE: i64 = 1;

/// How a response stands against its session.
#[derive(Copy, Debug, PartialEq, Eq, Structural)]
pub enum ChatKerCheck {
    /// The response is admissible.
    Okay,
    /// The scores or the risk limit of the session are out of range.
    SessionKerMalformed,
    /// The scores of the response are out of range.
    ResponseKerMalformed,
    /// The risk of the response exceeds what the session allows.
    RiskExceedsSessionLimit,
}

impl Clone for ChatKerCheck {
    fn clone(&self) -> (r: Self)
        ensures
            r == *self,
    {
        *self
    }
}

/// A chat session with its scores and the risk it admits in responses.
#[derive(Debug, PartialEq, Eq)]
pub struct ChatSessionParticleV1 {
    /// The session's identifier.
    pub session_id: String,
    /// The scores of the session.
    pub ker: KerMetrics,
    /// The largest risk of harm a response may carry.
    pub max_risk_of_harm_allowed: i64,
}

impl ChatSessionParticleV1 {
    /// A session is well formed when its scores and its risk limit lie in
    /// the unit interval.
    pub open spec fn well_formed(&self) -> bool {
        self.ker.well_formed() && in_unit_interval(self.max_risk_of_harm_allowed as int)
    }

    /// Whether the session is well formed.
    pub fn is_well_formed(&self) -> (ok: bool)
        ensures
            ok == self.well_formed(),
    {
        self.ker.is_well_formed() && 0 <= self.max_risk_of_harm_allowed
            && self.max_risk_of_harm_allowed <= ONE
    }
}

/// One response of a chat session with its scores.
#[derive(Debug, PartialEq, Eq)]
pub struct ChatResponseShardV1 {
    /// The response's identifier.
    pub response_id: String,
    /// The scores of the response.
    pub ker: KerMetrics,
}

impl ChatResponseShardV1 {
    /// A response is well formed when its scores lie in the unit interval.
    pub open spec fn well_formed(&self) -> bool {
        self.ker.well_formed()
    }

    /// Whether the response is well formed.
    pub fn is_well_formed(&self) -> (ok: bool)
        ensures
            ok == self.well_formed(),
    {
        self.ker.is_well_formed()
    }
}

/// How `response` stands against `session`: a malformed session is reported
/// first, a malformed response second, and a risk above the session's limit
/// plus the tolerance third.
pub open spec fn response_check(session: ChatSessionParticleV1, response: ChatResponseShardV1)
    -> ChatKerCheck {
    if !session.well_formed() {
        ChatKerCheck::SessionKerMalformed
    } else if !response.well_formed() {
        ChatKerCheck::ResponseKerMalformed
    } else if response.ker.r > session.max_risk_of_harm_allowed + RISK_TOLERANCE {
        ChatKerCheck::RiskExceedsSessionLimit
    } else {
        ChatKerCheck::Okay
    }
}

/// Checks a response against the session it belongs to.
pub fn check_response_against_session(
    session: &ChatSessionParticleV1,
    response: &ChatResponseShardV1,
) -> (c: ChatKerCheck)
    ensures
        c == response_check(*session, *response),
{
    if !session.is_well_formed() {
        return ChatKerCheck::SessionKerMalformed;
    }
    if !response.is_well_formed() {
        return ChatKerCheck::ResponseKerMalformed;
    }
    if response.ker.r > session.max_risk_of_harm_allowed + RISK_TOLERANCE {
        return ChatKerCheck::RiskExceedsSessionLimit;
    }
    ChatKerCheck::Okay
}

/// Normalised risk coordinates of a guarded chat session.
#[derive(Copy, Debug, PartialEq, Eq, Structural)]
pub struct CorridorVector {
    /// The heat coordinate.
    pub r_heat: i64,
    /// The toxicity coordinate.
    pub r_toxic: i64,
    /// The neurological coordinate.
    pub r_neuro: i64,
    /// The governance coordinate.
    pub r_governance: i64,
}

impl Clone for CorridorVector {
    fn clone(&self) -> (r: Self)
        ensures
            r == *self,
    {
        *self
    }
}

/// The residual before and after a request.
#[derive(Copy, Debug, PartialEq, Eq, Structural)]
pub struct ResidualState {
    /// The residual before the request.
    pub vt_before: i64,
    /// The residual after the request.
    pub vt_after: i64,
}

impl Clone for ResidualState {
    fn clone(&self) -> (r: Self)
        ensures
            r == *self,
    {
        *self
    }
}

/// Which corridors a guarded chat session satisfies.
#[derive(Copy, Debug, PartialEq, Eq, Structural)]
pub struct CorridorFlags {
    /// Every risk coordinate lies below 1.
    pub corridor_ok: bool,
    /// The legal corridors are satisfied.
    pub legal_ok: bool,
    /// The gold bands are satisfied.
    pub gold_ok: bool,
}

impl Clone for CorridorFlags {
    fn clone(&self) -> (r: Self)
        ensures
            r == *self,
    {
        *self
    }
}

/// The record of a guarded chat session.
#[derive(Debug, PartialEq, Eq)]
pub struct ChatSessionParticle {
    /// The session's identifier.
    pub session_id: String,
    /// Who created the session.
    pub creator_did: String,
    /// The vault the session belongs to.
    pub vault_id: String,
    /// The artifacts the session refers to, each with its role.
    pub artifact_refs: Vec<(String, String)>,
    /// How much of the chat quota the session has used.
    pub chat_quanta_used: u64,
    /// The scores of the session.
    pub ker: KerTriple,
    /// The risk coordinates of the session.
    pub rx: CorridorVector,
    /// The residual before and after.
    pub residual: ResidualState,
    /// Which corridors are satisfied.
    pub corridor_flags: CorridorFlags,
    /// The label of the development tunnel.
    pub dev_tunnel_label: String,
    /// The stamp over the record.
    pub hex_stamp: String,
    /// When the session was created, in milliseconds since the epoch.
    pub created_at_ms: u64,
}

/// What is known of an inbound request before it is judged.
#[derive(Debug, PartialEq, Eq)]
pub struct InboundRequestContext {
    /// Who sent the request.
    pub caller_did: String,
    /// The vault the request is for.
    pub vault_id: String,
    /// The topics of the request.
    pub topic_tags: Vec<String>,
    /// The artifacts the request refers to, each with its role.
    pub artifact_refs: Vec<(String, String)>,
    /// The residual before the request.
    pub prior_vt: i64,
}

/// The verdict on a chat request.
#[derive(Copy, Debug, PartialEq, Eq, Structural)]
pub enum SessionDecision {
    /// The request is served.
    Allow,
    /// The request is served throttled.
    Derate,
    /// The request is refused.
    Reject,
}

impl Clone for SessionDecision {
    fn clone(&self) -> (r: Self)
        ensures
            r == *self,
    {
        *self
    }
}

/// A verdict together with the session record it was given on.
#[derive(Debug, PartialEq, Eq)]
pub struct SessionDecisionOutcome {
    /// The verdict.
    pub decision: SessionDecision,
    /// The session record.
    pub particle: ChatSessionParticle,
}

} // verus!
