//! Deterministic safety-and-decision core for an automated outbound
//! messaging channel.
//!
//! The crate holds the conversation state machine, the quota and anti-ban
//! counter engine, the rule-based decision function, the double-lock
//! generation validator, the alert trigger detector and the audit recorder.
//! Every public operation carries a contract checked by Verus.

pub mod alert;
pub mod api_types;
pub mod audit;
pub mod auth;
pub mod config;
pub mod conversation;
pub mod decision;
pub mod knowledge;
pub mod license;
pub mod quota;
pub mod text;
pub mod validator;
