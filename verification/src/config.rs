//! Global configuration: active hours, response delays, anti-ban
//! settings and escalation thresholds. All externally supplied and
//! swappable without code change; this engine only holds and hands out
//! the current values.

use vstd::prelude::*;
use vstd::string::StringExecFns;

verus! {

/// The window during which automated responses are permitted, as the
/// transport layer spells it ("09:00").
#[derive(Debug, Clone)]
pub struct ActiveHours {
    pub start: String,
    pub end: String,
    pub timezone: String,
}

/// Bounds for the human-like response delay, in seconds.
#[derive(Debug, Clone, Copy, PartialEq, Eq, Structural)]
pub struct ResponseDelay {
    pub min_seconds: u64,
    pub max_seconds: u64,
}

/// Anti-ban strategy settings.
#[derive(Debug, Clone, Copy, PartialEq, Eq, Structural)]
pub struct AntiBanConfig {
    pub max_messages_per_day: u32,
    pub max_messages_per_hour: u32,
    pub typing_simulation: bool,
}

/// Thresholds after which a conversation is escalated to a human.
#[derive(Debug, Clone)]
pub struct EscalationThreshold {
    pub max_misunderstandings: u32,
    pub sensitive_keywords: Vec<String>,
}

/// All global parameters in one bundle.
#[derive(Debug, Clone)]
pub struct GlobalConfig {
    pub active_hours: ActiveHours,
    pub response_delay: ResponseDelay,
    pub ai_enabled: bool,
    pub alert_numbers: Vec<String>,
    pub anti_ban: AntiBanConfig,
    pub escalation_threshold: EscalationThreshold,
}

/// The stock configuration: active 09:00 to 18:00 UTC, delays of 2 to 8
/// seconds, generation enabled, no alert numbers, 200 messages a day and
/// 30 an hour with typing simulation, escalation after 3
/// misunderstandings or on one of three sensitive keywords.
pub open spec fn spec_is_default_config(config: GlobalConfig) -> bool {
    &&& config.active_hours.start@ == "09:00"@
    &&& config.active_hours.end@ == "18:00"@
    &&& config.active_hours.timezone@ == "UTC"@
    &&& config.response_delay == (ResponseDelay { min_seconds: 2, max_seconds: 8 })
    &&& config.ai_enabled
    &&& config.alert_numbers@.len() == 0
    &&& config.anti_ban == (AntiBanConfig {
        max_messages_per_day: 200,
        max_messages_per_hour: 30,
        typing_simulation: true,
    })
    &&& config.escalation_threshold.max_misunderstandings == 3
    &&& config.escalation_threshold.sensitive_keywords@.len() == 3
    &&& config.escalation_threshold.sensitive_keywords@[0]@ == "avocat"@
    &&& config.escalation_threshold.sensitive_keywords@[1]@ == "tribunal"@
    &&& config.escalation_threshold.sensitive_keywords@[2]@ == "police"@
}

/// Centralizes all global parameters.
pub struct ConfigEngine {
    pub config: GlobalConfig,
}

impl ConfigEngine {
    /// A fresh engine holding the stock configuration.
    pub fn new() -> (engine: Self)
        ensures
            spec_is_default_config(engine.config),
    {
        Self { config: Self::default_config() }
    }

    /// Builds the stock configuration.
    pub fn default_config() -> (config: GlobalConfig)
        ensures
            spec_is_default_config(config),
    {
        let mut sensitive_keywords: Vec<String> = Vec::new();
        sensitive_keywords.push(String::from_str("avocat"));
        sensitive_keywords.push(String::from_str("tribunal"));
        sensitive_keywords.push(String::from_str("police"));
        GlobalConfig {
            active_hours: ActiveHours {
                start: String::from_str("09:00"),
                end: String::from_str("18:00"),
                timezone: String::from_str("UTC"),
            },
            response_delay: ResponseDelay { min_seconds: 2, max_seconds: 8 },
            ai_enabled: true,
            alert_numbers: Vec::new(),
            anti_ban: AntiBanConfig {
                max_messages_per_day: 200,
                max_messages_per_hour: 30,
                typing_simulation: true,
            },
            escalation_threshold: EscalationThreshold {
                max_misunderstandings: 3,
                sensitive_keywords,
            },
        }
    }

    /// Accepts a raw configuration payload. Parsing it belongs to the
    /// storage layer; the held configuration does not change here.
    pub fn load(&mut self, _config_data: &str)
        ensures
            final(self).config == old(self).config,
    {
    }

    /// The current configuration.
    pub fn get_config(&self) -> (config: &GlobalConfig)
        ensures
            config == &self.config,
    {
        &self.config
    }

    /// Replaces the whole configuration.
    pub fn update_config(&mut self, config: GlobalConfig)
        ensures
            final(self).config == config,
    {
        self.config = config;
    }

    /// Whether automated responses are permitted right now. Evaluating
    /// the configured window against a clock belongs to the caller; this
    /// engine keeps automation permitted.
    pub fn is_active_now(&self) -> (active: bool)
        ensures
            active,
    {
        true
    }
}

impl Default for ConfigEngine {
    fn default() -> (engine: Self)
        ensures
            spec_is_default_config(engine.config),
    {
        Self::new()
    }
}

} // verus!
