//! The plain request and response bundles the transport layer hands in
//! and out, one pair per exposed call. The transport itself — HTTP,
//! serialization, storage — lives outside this crate and converts to and
//! from these values at its edge.

use vstd::prelude::*;

use crate::decision::DecisionContext;

verus! {

/// Input of one decision call.
#[derive(Debug, Clone)]
pub struct DecisionRequest {
    pub incoming_message: String,
    pub conversation_state: String,
    pub quotas_available: bool,
    pub is_active_hours: bool,
    pub sentiment_detected: Option<String>,
}

impl DecisionRequest {
    /// The decision context this request describes, field for field.
    pub fn into_context(self) -> (context: DecisionContext)
        ensures
            context.incoming_message == self.incoming_message,
            context.conversation_state == self.conversation_state,
            context.quotas_available == self.quotas_available,
            context.is_active_hours == self.is_active_hours,
            context.sentiment_detected == self.sentiment_detected,
    {
        DecisionContext {
            incoming_message: self.incoming_message,
            conversation_state: self.conversation_state,
            quotas_available: self.quotas_available,
            is_active_hours: self.is_active_hours,
            sentiment_detected: self.sentiment_detected,
        }
    }
}

/// Output of one decision call: the action's name and its payload, if
/// any.
#[derive(Debug, Clone)]
pub struct DecisionResponse {
    pub action: String,
    pub details: Option<String>,
}

/// Input of the post-generation validation call.
#[derive(Debug, Clone)]
pub struct ValidationRequest {
    pub text: String,
}

/// Output of the post-generation validation call.
#[derive(Debug, Clone)]
pub struct ValidationResponse {
    pub valid: bool,
    pub validated_text: Option<String>,
    pub error: Option<String>,
}

/// Input of the quota admission call: "text", "image" or "video".
#[derive(Debug, Clone)]
pub struct QuotaCheckRequest {
    pub message_type: String,
}

/// Output of the quota admission call.
#[derive(Debug, Clone)]
pub struct QuotaCheckResponse {
    pub can_send: bool,
    pub delay_seconds: Option<u64>,
}

/// Input of the state transition call, both by transport spelling.
#[derive(Debug, Clone)]
pub struct TransitionRequest {
    pub current_state: String,
    pub event: String,
}

/// Output of the state transition call.
#[derive(Debug, Clone)]
pub struct TransitionResponse {
    pub new_state: String,
}

/// Output of a manual quota reset call.
#[derive(Debug, Clone)]
pub struct QuotaResetResponse {
    pub reset_type: String,
    pub timestamp: String,
}

/// Output of the quota status call.
#[derive(Debug, Clone)]
pub struct QuotaStatusResponse {
    pub messages_today: u32,
    pub messages_this_week: u32,
    pub images_today: u32,
    pub videos_this_week: u32,
    pub last_reset: String,
    pub needs_daily_reset: bool,
    pub needs_weekly_reset: bool,
}

/// Where the storage layer keeps its database and the key material it
/// encrypts with; the storage engine itself lives outside this crate.
#[derive(Debug, Clone)]
pub struct StorageConfig {
    pub db_path: String,
    pub encryption_key: Vec<u8>,
}

} // verus!
