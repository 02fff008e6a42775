//! Audit recorder: an append-only record of every decision cycle, for
//! complete traceability. Records are immutable once written; retrieval
//! is a read-only projection over the log.

use vstd::prelude::*;
use vstd::seq_lib::*;
use vstd::string::StringExecFns;

use crate::text::str_eq;

verus! {

/// The message counters captured before and after one decision cycle.
#[derive(Debug, Clone, Copy, PartialEq, Eq, Structural)]
pub struct QuotaSnapshot {
    pub messages_today: u32,
    pub messages_this_week: u32,
}

/// One decision cycle, immutable once written. The timestamp is held in
/// seconds since the Unix epoch.
#[derive(Debug, Clone)]
pub struct AuditLog {
    pub id: String,
    pub timestamp: i64,
    pub conversation_id: String,
    pub incoming_message: String,
    pub state: String,
    pub chosen_action: String,
    pub ai_prompt: Option<String>,
    pub ai_response: Option<String>,
    pub sent_message: Option<String>,
    pub quotas_before: QuotaSnapshot,
    pub quotas_after: QuotaSnapshot,
}

impl AuditLog {
    /// A fresh record holding exactly the same values.
    pub fn duplicate(&self) -> (copy: Self)
        ensures
            copy == *self,
    {
        AuditLog {
            id: self.id.clone(),
            timestamp: self.timestamp,
            conversation_id: self.conversation_id.clone(),
            incoming_message: self.incoming_message.clone(),
            state: self.state.clone(),
            chosen_action: self.chosen_action.clone(),
            ai_prompt: duplicate_opt(&self.ai_prompt),
            ai_response: duplicate_opt(&self.ai_response),
            sent_message: duplicate_opt(&self.sent_message),
            quotas_before: self.quotas_before,
            quotas_after: self.quotas_after,
        }
    }
}

/// A fresh optional string holding the same value.
fn duplicate_opt(value: &Option<String>) -> (copy: Option<String>)
    ensures
        copy == *value,
{
    match value {
        Some(s) => Some(s.clone()),
        None => None,
    }
}

/// Append-only recorder of decision cycles.
pub struct AuditEngine {
    logs: Vec<AuditLog>,
}

impl AuditEngine {
    /// Everything recorded so far, oldest first.
    pub closed spec fn spec_logs(&self) -> Seq<AuditLog> {
        self.logs@
    }

    pub fn new() -> (engine: Self)
        ensures
            engine.spec_logs().len() == 0,
    {
        Self { logs: Vec::new() }
    }

    /// Appends one record; nothing already recorded moves or changes.
    pub fn log_message_flow(&mut self, log: AuditLog)
        ensures
            final(self).spec_logs() == old(self).spec_logs().push(log),
    {
        self.logs.push(log);
    }

    /// The number of records written so far.
    pub fn log_count(&self) -> (count: usize)
        ensures
            count == self.spec_logs().len(),
    {
        self.logs.len()
    }

    /// All records of one conversation, oldest first: a read-only
    /// projection of the log.
    #[verifier::loop_isolation(false)]
    pub fn get_logs(&self, conversation_id: &str) -> (found: Vec<AuditLog>)
        ensures
            found@ == self.spec_logs().filter(
                |log: AuditLog| log.conversation_id@ == conversation_id@,
            ),
    {
        let ghost pred = |log: AuditLog| log.conversation_id@ == conversation_id@;
        let mut found: Vec<AuditLog> = Vec::new();
        let n = self.logs.len();
        let mut i: usize = 0;
        while i < n
            invariant
                n == self.logs@.len(),
                i <= n,
                found@ == self.logs@.take(i as int).filter(pred),
            decreases n - i,
        {
            if str_eq(self.logs[i].conversation_id.as_str(), conversation_id) {
                found.push(self.logs[i].duplicate());
            }
            proof {
                self.logs@.take(i as int).lemma_filter_push(self.logs@[i as int], pred);
                assert(self.logs@.take(i as int).push(self.logs@[i as int]) =~= self.logs@.take(
                    i + 1,
                ));
            }
            i += 1;
        }
        proof {
            assert(self.logs@.take(n as int) =~= self.logs@);
            assert(pred =~= (|log: AuditLog| log.conversation_id@ == conversation_id@));
        }
        found
    }

    /// A fixed report string; reporting beyond the raw log is not part
    /// of this engine.
    pub fn generate_report(&self, _start_epoch: i64, _end_epoch: i64) -> (report: String)
        ensures
            report@ == "audit report"@,
    {
        String::from_str("audit report")
    }
}

impl Default for AuditEngine {
    fn default() -> (engine: Self)
        ensures
            engine.spec_logs().len() == 0,
    {
        Self::new()
    }
}

} // verus!
