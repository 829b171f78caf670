//! Append-only compliance ledger of key-management and cryptographic actions.
//!
//! Every key-generation attempt appends exactly one record, success or
//! failure; a cryptographic operation appends one record when its context
//! demands auditing.  No update or delete operation exists: records, once
//! appended, are immutable and retained by this core.

use vstd::prelude::*;

use crate::hsm::CryptoOperation;
use crate::hsm::OperationContext;
use crate::hsm::PqcAlgorithm;
use crate::hsm::HsmProviderType;

verus! {

/// The kind of action a record describes.
#[derive(Clone, Copy, Debug, PartialEq, Eq, Structural)]
pub enum AuditAction {
    KeyGeneration,
    CryptoOperation,
}

/// Whether the recorded action succeeded.
#[derive(Clone, Copy, Debug, PartialEq, Eq, Structural)]
pub enum AuditOutcome {
    Succeeded,
    Failed,
}

/// One immutable ledger entry.
#[derive(Clone, Debug)]
pub struct AuditRecord {
    pub action: AuditAction,
    pub key_id: String,
    pub algorithm: PqcAlgorithm,
    pub provider: HsmProviderType,
    pub user_id: String,
    pub application_id: String,
    pub session_id: String,
    /// Unix milliseconds taken from the caller's operation context.
    pub timestamp: u64,
    pub outcome: AuditOutcome,
}

/// The append-only ledger.
#[derive(Debug)]
pub struct HsmAuditTrail {
    pub records: Vec<AuditRecord>,
}

impl HsmAuditTrail {
    /// Creates an empty ledger.
    pub fn new() -> (r: Self)
        ensures
            r.records@.len() == 0,
    {
        HsmAuditTrail { records: Vec::new() }
    }

    /// Number of records appended so far.
    pub fn len(&self) -> (r: usize)
        ensures
            r == self.records@.len(),
    {
        self.records.len()
    }

    /// Appends exactly one record for a key-generation attempt, success or
    /// failure alike; every earlier record is left untouched.
    pub fn record_key_generation(
        &mut self,
        key_id: &str,
        algorithm: PqcAlgorithm,
        provider: HsmProviderType,
        succeeded: bool,
        context: &OperationContext,
    )
        ensures
            final(self).records@.len() == old(self).records@.len() + 1,
            final(self).records@.drop_last() == old(self).records@,
            ({
                let rec = final(self).records@.last();
                &&& rec.action == AuditAction::KeyGeneration
                &&& rec.key_id@ == key_id@
                &&& rec.algorithm == algorithm
                &&& rec.provider == provider
                &&& rec.outcome == (if succeeded {
                    AuditOutcome::Succeeded
                } else {
                    AuditOutcome::Failed
                })
                &&& rec.user_id@ == context.user_id@
                &&& rec.application_id@ == context.application_id@
                &&& rec.session_id@ == context.session_id@
                &&& rec.timestamp == context.timestamp
            }),
    {
        let outcome = if succeeded {
            AuditOutcome::Succeeded
        } else {
            AuditOutcome::Failed
        };
        let record = AuditRecord {
            action: AuditAction::KeyGeneration,
            key_id: key_id.to_owned(),
            algorithm,
            provider,
            user_id: context.user_id.clone(),
            application_id: context.application_id.clone(),
            session_id: context.session_id.clone(),
            timestamp: context.timestamp,
            outcome,
        };
        self.records.push(record);
    }

    /// Appends exactly one record for a cryptographic operation, carrying the
    /// operation's own context; every earlier record is left untouched.
    pub fn record_crypto_operation(
        &mut self,
        operation: &CryptoOperation,
        algorithm: PqcAlgorithm,
        provider: HsmProviderType,
        succeeded: bool,
    )
        ensures
            final(self).records@.len() == old(self).records@.len() + 1,
            final(self).records@.drop_last() == old(self).records@,
            ({
                let rec = final(self).records@.last();
                &&& rec.action == AuditAction::CryptoOperation
                &&& rec.key_id@ == operation.key_id@
                &&& rec.algorithm == algorithm
                &&& rec.provider == provider
                &&& rec.outcome == (if succeeded {
                    AuditOutcome::Succeeded
                } else {
                    AuditOutcome::Failed
                })
                &&& rec.user_id@ == operation.context.user_id@
                &&& rec.application_id@ == operation.context.application_id@
                &&& rec.session_id@ == operation.context.session_id@
                &&& rec.timestamp == operation.context.timestamp
            }),
    {
        let outcome = if succeeded {
            AuditOutcome::Succeeded
        } else {
            AuditOutcome::Failed
        };
        let record = AuditRecord {
            action: AuditAction::CryptoOperation,
            key_id: operation.key_id.clone(),
            algorithm,
            provider,
            user_id: operation.context.user_id.clone(),
            application_id: operation.context.application_id.clone(),
            session_id: operation.context.session_id.clone(),
            timestamp: operation.context.timestamp,
            outcome,
        };
        self.records.push(record);
    }

    /// Read access for reporting: the record at `index`.
    pub fn record_at(&self, index: usize) -> (r: &AuditRecord)
        requires
            index < self.records@.len(),
        ensures
            *r == self.records@[index as int],
    {
        &self.records[index]
    }
}

} // verus!
