//! Top-level orchestrator: holds the registry of constructed providers, the
//! provider-selection policy, the audit ledger and the metrics registry.
//!
//! Every key-generation call resolves a backend (the caller's explicit
//! preference wins, otherwise the per-algorithm ranking over the enabled
//! set), makes exactly one attempt under the per-call timeout, appends
//! exactly one audit record whatever the outcome, and folds exactly one
//! operation into the resolved backend's counters.  No failover is attempted
//! across backends: `ProviderUnavailable`, `ResourceExhausted` and
//! `OperationTimeout` are terminal for the call and recoverable by the
//! caller.

use vstd::prelude::*;

use crate::hsm::audit::AuditAction;
use crate::hsm::audit::AuditOutcome;
use crate::hsm::audit::HsmAuditTrail;
use crate::hsm::config::HsmConfig;
use crate::hsm::CryptoOperation;
use crate::hsm::CryptoResult;
use crate::hsm::HealthStatus;
use crate::hsm::HsmError;
use crate::hsm::HsmHealthStatus;
use crate::hsm::HsmKeyHandle;
use crate::hsm::HsmProviderType;
use crate::hsm::metrics::aggregated_view;
use crate::hsm::metrics::HsmMetrics;
use crate::hsm::metrics::MetricsRegistry;
use crate::hsm::metrics::registry_post;
use crate::hsm::PqcAlgorithm;
use crate::hsm::policy::lemma_selection_respects_enabled;
use crate::hsm::policy::provider_enabled;
use crate::hsm::policy::select_provider;
use crate::hsm::policy::select_provider_spec;
use crate::hsm::provider::AwsCloudHsmProvider;
use crate::hsm::provider::AzureKeyVaultProvider;
use crate::hsm::provider::crypto_latency_for;
use crate::hsm::provider::crypto_latency_ms;
use crate::hsm::provider::find_key;
use crate::hsm::provider::gen_latency_for;
use crate::hsm::provider::gen_latency_ms;
use crate::hsm::provider::gen_post;
use crate::hsm::provider::handle_like;
use crate::hsm::provider::MAX_TIMESTAMP_MS;
use crate::hsm::provider::Pkcs11Provider;
use crate::hsm::provider::ProviderSlot;
use crate::hsm::provider::times_out;
use crate::hsm::OperationContext;

verus! {

/// The backend a generation call is routed to: the explicit preference when
/// one is given, the ranked selection otherwise.
pub open spec fn resolve_provider(
    config: HsmConfig,
    algorithm: PqcAlgorithm,
    preferred_provider: Option<HsmProviderType>,
) -> HsmProviderType {
    match preferred_provider {
        Some(t) => t,
        None => select_provider_spec(
            config.aws_enabled,
            config.azure_enabled,
            config.pkcs11_enabled,
            algorithm,
        ),
    }
}

/// Index of the first registered slot holding `key_id`, in registration
/// order.
pub open spec fn holder_index(providers: Seq<ProviderSlot>, key_id: Seq<char>) -> Option<int>
    decreases providers.len(),
{
    if providers.len() == 0 {
        None
    } else if find_key(providers[0].model().keys@, key_id) is Some {
        Some(0int)
    } else {
        match holder_index(providers.drop_first(), key_id) {
            Some(i) => Some(i + 1),
            None => None,
        }
    }
}

/// The index returned by `holder_index` is in range, holds the key, and no
/// earlier slot does.
pub proof fn lemma_holder_index(providers: Seq<ProviderSlot>, key_id: Seq<char>)
    ensures
        holder_index(providers, key_id) matches Some(i) ==> 0 <= i < providers.len() && find_key(
            providers[i].model().keys@,
            key_id,
        ) is Some && (forall|j: int|
            0 <= j < i ==> find_key((#[trigger] providers[j]).model().keys@, key_id) is None),
        holder_index(providers, key_id) is None ==> forall|j: int|
            0 <= j < providers.len() ==> find_key(
                (#[trigger] providers[j]).model().keys@,
                key_id,
            ) is None,
    decreases providers.len(),
{
    if providers.len() > 0 && find_key(providers[0].model().keys@, key_id) is None {
        let rest = providers.drop_first();
        lemma_holder_index(rest, key_id);
        match holder_index(rest, key_id) {
            Some(i2) => {
                assert(providers[i2 + 1] == rest[i2]);
                assert forall|j: int| 0 <= j < i2 + 1 implies find_key(
                    (#[trigger] providers[j]).model().keys@,
                    key_id,
                ) is None by {
                    if j > 0 {
                        assert(rest[j - 1] == providers[j]);
                    }
                }
            },
            None => {
                assert forall|j: int| 0 <= j < providers.len() implies find_key(
                    (#[trigger] providers[j]).model().keys@,
                    key_id,
                ) is None by {
                    if j > 0 {
                        assert(rest[j - 1] == providers[j]);
                    }
                }
            },
        }
    }
}

/// Two registries whose slots carry the same backend types, position by
/// position, register exactly the same backend types.
pub proof fn lemma_same_types_same_registered(
    a: Seq<ProviderSlot>,
    b: Seq<ProviderSlot>,
    t: HsmProviderType,
)
    requires
        a.len() == b.len(),
        forall|i: int|
            0 <= i < a.len() ==> (#[trigger] a[i]).model().provider_type
                == b[i].model().provider_type,
    ensures
        (exists|i: int| 0 <= i < a.len() && (#[trigger] a[i]).model().provider_type == t)
            <==> (exists|i: int|
            0 <= i < b.len() && (#[trigger] b[i]).model().provider_type == t),
{
    if exists|i: int| 0 <= i < a.len() && (#[trigger] a[i]).model().provider_type == t {
        let j = choose|i: int|
            0 <= i < a.len() && (#[trigger] a[i]).model().provider_type == t;
        assert(b[j].model().provider_type == t);
    }
    if exists|i: int| 0 <= i < b.len() && (#[trigger] b[i]).model().provider_type == t {
        let j = choose|i: int|
            0 <= i < b.len() && (#[trigger] b[i]).model().provider_type == t;
        assert(a[j].model().provider_type == t);
    }
}

/// The manager: provider registry in registration order, audit ledger,
/// metrics registry, and the configuration it was constructed from.
#[derive(Debug)]
pub struct HsmManager {
    pub providers: Vec<ProviderSlot>,
    pub audit_trail: HsmAuditTrail,
    pub metrics: MetricsRegistry,
    pub config: HsmConfig,
}

impl HsmManager {
    /// Whether a backend of type `t` is registered.
    pub open spec fn registered(&self, t: HsmProviderType) -> bool {
        exists|i: int|
            0 <= i < self.providers@.len() && (#[trigger] self.providers@[i]).model().provider_type
                == t
    }

    /// Index of the registered backend of type `t`.
    pub open spec fn slot_index(&self, t: HsmProviderType) -> int {
        choose|i: int|
            0 <= i < self.providers@.len() && (#[trigger] self.providers@[i]).model().provider_type
                == t
    }

    /// Well-formedness: every slot is well formed and keyed by a distinct
    /// backend type, every backend runs under the configured timeout, the
    /// metrics registry is well formed, and exactly the enabled backends are
    /// registered.
    pub open spec fn wf(&self) -> bool {
        &&& forall|i: int| 0 <= i < self.providers@.len() ==> (#[trigger] self.providers@[i]).wf()
        &&& forall|i: int, j: int|
            0 <= i < j < self.providers@.len() ==> (#[trigger] self.providers@[i]).model().provider_type
                != (#[trigger] self.providers@[j]).model().provider_type
        &&& forall|i: int|
            0 <= i < self.providers@.len() ==> (#[trigger] self.providers@[i]).model().timeout_seconds
                == self.config.timeout_seconds
        &&& self.metrics.wf()
        &&& (self.registered(HsmProviderType::AwsCloudHsm) <==> self.config.aws_enabled)
        &&& (self.registered(HsmProviderType::AzureKeyVault) <==> self.config.azure_enabled)
        &&& (self.registered(HsmProviderType::Pkcs11Generic) <==> self.config.pkcs11_enabled)
    }

    /// Constructs the manager, building one provider per enabled backend in
    /// the fixed registration order (cloud HSM, key vault, hardware token).
    /// An enabled backend without its required credentials is a fatal
    /// configuration error.
    pub fn new(config: HsmConfig) -> (r: Result<Self, HsmError>)
        ensures
            r is Ok <==> config.credentials_ok(),
            r is Err ==> r == Err::<Self, HsmError>(HsmError::ConfigurationError),
            r matches Ok(m) ==> {
                &&& m.wf()
                &&& m.config == config
                &&& m.providers@.len() == (if config.aws_enabled {
                    1int
                } else {
                    0int
                }) + (if config.azure_enabled {
                    1int
                } else {
                    0int
                }) + (if config.pkcs11_enabled {
                    1int
                } else {
                    0int
                })
                &&& m.audit_trail.records@.len() == 0
                &&& m.metrics.entries@.len() == 0
                &&& forall|i: int|
                    0 <= i < m.providers@.len() ==> (#[trigger] m.providers@[i]).model().keys@.len()
                        == 0 && m.providers@[i].model().pool.outstanding() == 0
                        && m.providers@[i].model().metrics.total_operations == 0
                &&& forall|i: int|
                    0 <= i < m.providers@.len() ==> (#[trigger] m.providers@[i]).model().pool.max_connections
                        == (match m.providers@[i].model().provider_type {
                        HsmProviderType::AwsCloudHsm => config.aws_config.connection_pool_size,
                        HsmProviderType::AzureKeyVault => config.azure_config.connection_pool_size,
                        _ => config.pkcs11_config.connection_pool_size,
                    })
            },
    {
        if !config.check_credentials() {
            return Err(HsmError::ConfigurationError);
        }
        let mut providers: Vec<ProviderSlot> = Vec::new();
        if config.aws_enabled {
            let p = match AwsCloudHsmProvider::new(&config.aws_config, config.timeout_seconds) {
                Ok(p) => p,
                Err(_) => {
                    return Err(HsmError::ConfigurationError);
                },
            };
            providers.push(ProviderSlot::Aws(p));
        }
        if config.azure_enabled {
            let p = match AzureKeyVaultProvider::new(&config.azure_config, config.timeout_seconds)
                {
                Ok(p) => p,
                Err(_) => {
                    return Err(HsmError::ConfigurationError);
                },
            };
            providers.push(ProviderSlot::Azure(p));
        }
        if config.pkcs11_enabled {
            let p = match Pkcs11Provider::new(&config.pkcs11_config, config.timeout_seconds) {
                Ok(p) => p,
                Err(_) => {
                    return Err(HsmError::ConfigurationError);
                },
            };
            providers.push(ProviderSlot::Pkcs11(p));
        }
        let manager = HsmManager {
            providers,
            audit_trail: HsmAuditTrail::new(),
            metrics: MetricsRegistry::new(),
            config,
        };
        proof {
            if manager.config.aws_enabled {
                assert(manager.providers@[0].model().provider_type
                    == HsmProviderType::AwsCloudHsm);
            }
            if manager.config.azure_enabled {
                let i = if manager.config.aws_enabled {
                    1int
                } else {
                    0int
                };
                assert(manager.providers@[i].model().provider_type
                    == HsmProviderType::AzureKeyVault);
            }
            if manager.config.pkcs11_enabled {
                let i = (if manager.config.aws_enabled {
                    1int
                } else {
                    0int
                }) + (if manager.config.azure_enabled {
                    1int
                } else {
                    0int
                });
                assert(manager.providers@[i].model().provider_type
                    == HsmProviderType::Pkcs11Generic);
            }
        }
        Ok(manager)
    }

    /// The ranked selection for `algorithm` over the currently enabled set.
    pub fn select_optimal_provider(&self, algorithm: &PqcAlgorithm) -> (r: HsmProviderType)
        ensures
            r == select_provider_spec(
                self.config.aws_enabled,
                self.config.azure_enabled,
                self.config.pkcs11_enabled,
                *algorithm,
            ),
            self.config.aws_enabled || self.config.azure_enabled || self.config.pkcs11_enabled
                ==> provider_enabled(
                self.config.aws_enabled,
                self.config.azure_enabled,
                self.config.pkcs11_enabled,
                r,
            ),
    {
        proof {
            lemma_selection_respects_enabled(
                self.config.aws_enabled,
                self.config.azure_enabled,
                self.config.pkcs11_enabled,
                *algorithm,
            );
        }
        select_provider(
            self.config.aws_enabled,
            self.config.azure_enabled,
            self.config.pkcs11_enabled,
            algorithm,
        )
    }

    /// Index of the registered backend of type `t`, if any.
    fn find_slot(&self, t: HsmProviderType) -> (r: Option<usize>)
        requires
            self.wf(),
        ensures
            r is Some <==> self.registered(t),
            r matches Some(i) ==> i < self.providers@.len()
                && self.providers@[i as int].model().provider_type == t && i as int
                == self.slot_index(t),
    {
        let n = self.providers.len();
        let mut i: usize = 0;
        while i < n
            invariant
                self.wf(),
                n == self.providers@.len(),
                0 <= i <= n,
                forall|j: int|
                    0 <= j < i ==> (#[trigger] self.providers@[j]).model().provider_type != t,
            decreases n - i,
        {
            if self.providers[i].provider_type() == t {
                proof {
                    let k = self.slot_index(t);
                    assert(self.providers@[k].model().provider_type == t);
                    if k < i as int {
                        assert(self.providers@[k].model().provider_type != t);
                    }
                    if k > i as int {
                        assert(self.providers@[i as int].model().provider_type
                            != self.providers@[k].model().provider_type);
                    }
                }
                return Some(i);
            }
            i = i + 1;
        }
        proof {
            if self.registered(t) {
                let k = choose|j: int|
                    0 <= j < self.providers@.len()
                        && (#[trigger] self.providers@[j]).model().provider_type == t;
                assert(self.providers@[k].model().provider_type == t);
            }
        }
        None
    }

    /// Generates a key with automatic provider selection: the explicit
    /// preference wins, otherwise the per-algorithm ranking.  Exactly one
    /// audit record is appended whatever the outcome, carrying the caller's
    /// context, and exactly one operation is folded into the resolved
    /// backend's counters.  The attempt is made once; no failover.
    pub fn generate_pqc_key(
        &mut self,
        algorithm: PqcAlgorithm,
        key_id: &str,
        preferred_provider: Option<HsmProviderType>,
        context: &OperationContext,
    ) -> (r: Result<HsmKeyHandle, HsmError>)
        requires
            old(self).wf(),
            context.timestamp <= MAX_TIMESTAMP_MS,
        ensures
            final(self).wf(),
            final(self).config == old(self).config,
            ({
                let resolved = resolve_provider(old(self).config, algorithm, preferred_provider);
                &&& !old(self).registered(resolved) ==> r == Err::<HsmKeyHandle, HsmError>(
                    HsmError::ProviderUnavailable,
                ) && final(self).providers@ == old(self).providers@
                &&& old(self).registered(resolved) ==> {
                    let k = old(self).slot_index(resolved);
                    &&& final(self).providers@.len() == old(self).providers@.len()
                    &&& forall|i: int|
                        0 <= i < old(self).providers@.len() && i != k ==> final(self).providers@[i] == old(self).providers@[i]
                    &&& gen_post(old(self).providers@[k].model(),
                        final(self).providers@[k].model(), algorithm, key_id@, context.timestamp,
                        r)
                }
                &&& final(self).audit_trail.records@.len() == old(self).audit_trail.records@.len() + 1
                &&& final(self).audit_trail.records@.drop_last() == old(self).audit_trail.records@
                &&& ({
                    let rec = final(self).audit_trail.records@.last();
                    &&& rec.action == AuditAction::KeyGeneration
                    &&& rec.key_id@ == key_id@
                    &&& rec.algorithm == algorithm
                    &&& rec.provider == resolved
                    &&& rec.outcome == (if r is Ok {
                        AuditOutcome::Succeeded
                    } else {
                        AuditOutcome::Failed
                    })
                    &&& rec.user_id@ == context.user_id@
                    &&& rec.timestamp == context.timestamp
                })
                &&& registry_post(old(self).metrics.entries@, final(self).metrics.entries@,
                    resolved, r is Ok, if r is Ok {
                    gen_latency_ms(resolved, algorithm)
                } else {
                    0
                })
            }),
    {
        let resolved = match preferred_provider {
            Some(t) => t,
            None => self.select_optimal_provider(&algorithm),
        };
        let slot_found = self.find_slot(resolved);
        let result = match slot_found {
            Some(i) => {
                let mut slot = self.providers.remove(i);
                let r = slot.generate_pqc_key(algorithm, key_id, context.timestamp);
                self.providers.insert(i, slot);
                proof {
                    assert(forall|j: int|
                        0 <= j < old(self).providers@.len() && j != i as int
                            ==> (#[trigger] self.providers@[j]) == old(self).providers@[j]);
                    assert(self.providers@[i as int].model().provider_type == resolved);
                    assert(forall|j: int|
                        0 <= j < self.providers@.len() ==> (#[trigger] self.providers@[j]).model().provider_type
                            == old(self).providers@[j].model().provider_type);
                }
                r
            },
            None => Err(HsmError::ProviderUnavailable),
        };
        let succeeded = result.is_ok();
        self.audit_trail.record_key_generation(key_id, algorithm, resolved, succeeded, context);
        let latency = if succeeded {
            gen_latency_for(resolved, algorithm)
        } else {
            0
        };
        self.metrics.record_operation(resolved, succeeded, latency);
        proof {
            assert(self.providers@.len() == old(self).providers@.len());
            assert(forall|j: int|
                0 <= j < self.providers@.len() ==> (#[trigger] self.providers@[j]).model().provider_type
                    == old(self).providers@[j].model().provider_type);
            lemma_same_types_same_registered(old(self).providers@, self.providers@,
                HsmProviderType::AwsCloudHsm);
            lemma_same_types_same_registered(old(self).providers@, self.providers@,
                HsmProviderType::AzureKeyVault);
            lemma_same_types_same_registered(old(self).providers@, self.providers@,
                HsmProviderType::Pkcs11Generic);
            assert(self.wf());
        }
        result
    }

    /// Queries every registered provider in registration order and returns
    /// the first match; fails with `KeyNotFound` exactly when no registered
    /// provider holds the key, whether the registry is empty or fully
    /// populated with unrelated keys.  Repeated lookups repeat the fan-out:
    /// no cross-call caching.
    pub fn get_key(&self, key_id: &str) -> (r: Result<HsmKeyHandle, HsmError>)
        requires
            self.wf(),
        ensures
            r is Ok <==> holder_index(self.providers@, key_id@) is Some,
            r matches Ok(h) ==> (holder_index(self.providers@, key_id@) matches Some(k)
                && find_key(self.providers@[k].model().keys@, key_id@) matches Some(s)
                && handle_like(h, s)),
            r is Err ==> r == Err::<HsmKeyHandle, HsmError>(HsmError::KeyNotFound),
    {
        proof {
            lemma_holder_index(self.providers@, key_id@);
        }
        let n = self.providers.len();
        let mut i: usize = 0;
        while i < n
            invariant
                self.wf(),
                n == self.providers@.len(),
                0 <= i <= n,
                forall|j: int|
                    0 <= j < i ==> find_key(
                        (#[trigger] self.providers@[j]).model().keys@,
                        key_id@,
                    ) is None,
            decreases n - i,
        {
            match self.providers[i].get_key(key_id) {
                Ok(h) => {
                    proof {
                        lemma_holder_index(self.providers@, key_id@);
                        let k = holder_index(self.providers@, key_id@)->Some_0;
                        if k < i as int {
                            assert(find_key(self.providers@[k].model().keys@, key_id@) is None);
                        }
                        if k > i as int {
                            assert(find_key(self.providers@[i as int].model().keys@,
                                key_id@) is None);
                        }
                    }
                    return Ok(h);
                },
                Err(_) => {
                    i = i + 1;
                },
            }
        }
        proof {
            lemma_holder_index(self.providers@, key_id@);
            if holder_index(self.providers@, key_id@) is Some {
                let k = holder_index(self.providers@, key_id@)->Some_0;
                assert(find_key(self.providers@[k].model().keys@, key_id@) is Some);
            }
        }
        Err(HsmError::KeyNotFound)
    }

    /// Resolves the owning provider through the key, delegates the operation
    /// to it, appends an audit record only when the caller's context demands
    /// auditing, and folds the operation into the owner's counters
    /// unconditionally.  A verification mismatch would surface in the
    /// result's `success` flag, never as an error.
    pub fn crypto_operation(&mut self, operation: &CryptoOperation) -> (r: Result<
        CryptoResult,
        HsmError,
    >)
        requires
            old(self).wf(),
        ensures
            final(self).wf(),
            final(self).config == old(self).config,
            holder_index(old(self).providers@, operation.key_id@) is None ==> r == Err::<
                CryptoResult,
                HsmError,
            >(HsmError::KeyNotFound) && final(self).providers@ == old(self).providers@ && final(self).audit_trail.records@ == old(self).audit_trail.records@ && final(self).metrics.entries@ == old(self).metrics.entries@,
            holder_index(old(self).providers@, operation.key_id@) matches Some(k) ==> {
                let owner = old(self).providers@[k].model().provider_type;
                let latency = crypto_latency_ms(owner, operation.operation_type);
                &&& final(self).providers@.len() == old(self).providers@.len()
                &&& forall|i: int|
                    0 <= i < old(self).providers@.len() && i != k ==> final(self).providers@[i]
                        == old(self).providers@[i]
                &&& exists|prefix: Seq<char>|
                    prefix.len() <= 100 && crate::hsm::provider::crypto_post(
                        old(self).providers@[k].model(),
                        final(self).providers@[k].model(),
                        operation.operation_type,
                        prefix,
                        r,
                    )
                &&& r is Ok <==> old(self).providers@[k].model().pool.can_acquire() && !times_out(
                    latency,
                    old(self).providers@[k].model().timeout_seconds,
                )
                &&& r matches Ok(res) ==> res.success && res.error_code is None
                    && res.duration_ms == latency && res.data@.len() == 32
                &&& operation.context.audit_required ==> {
                    &&& final(self).audit_trail.records@.len() == old(self).audit_trail.records@.len() + 1
                    &&& final(self).audit_trail.records@.drop_last() == old(self).audit_trail.records@
                    &&& ({
                        let rec = final(self).audit_trail.records@.last();
                        &&& rec.action == AuditAction::CryptoOperation
                        &&& rec.key_id@ == operation.key_id@
                        &&& rec.provider == owner
                        &&& rec.outcome == (if r is Ok {
                            AuditOutcome::Succeeded
                        } else {
                            AuditOutcome::Failed
                        })
                    })
                }
                &&& !operation.context.audit_required ==> final(self).audit_trail.records@ == old(self).audit_trail.records@
                &&& registry_post(old(self).metrics.entries@, final(self).metrics.entries@, owner,
                    r is Ok, if r is Ok {
                    latency
                } else {
                    0
                })
            },
    {
        let handle = match self.get_key(&operation.key_id) {
            Ok(h) => h,
            Err(_) => {
                proof {
                    lemma_holder_index(self.providers@, operation.key_id@);
                }
                return Err(HsmError::KeyNotFound);
            },
        };
        proof {
            lemma_holder_index(self.providers@, operation.key_id@);
        }
        let ghost k = holder_index(self.providers@, operation.key_id@)->Some_0;
        let owner = handle.provider;
        proof {
            let stored = find_key(self.providers@[k].model().keys@, operation.key_id@)->Some_0;
            crate::hsm::provider::lemma_find_key_index(self.providers@[k].model().keys@,
                operation.key_id@);
            assert(stored.provider == self.providers@[k].model().provider_type);
            assert(owner == self.providers@[k].model().provider_type);
        }
        let slot_found = self.find_slot(owner);
        let i = match slot_found {
            Some(i) => i,
            None => {
                proof {
                    assert(self.providers@[k].model().provider_type == owner);
                }
                return Err(HsmError::ProviderUnavailable);
            },
        };
        proof {
            assert(i as int == k);
        }
        let mut slot = self.providers.remove(i);
        let result = slot.crypto_operation(operation);
        self.providers.insert(i, slot);
        proof {
            assert(forall|j: int|
                0 <= j < old(self).providers@.len() && j != i as int
                    ==> (#[trigger] self.providers@[j]) == old(self).providers@[j]);
        }
        let succeeded = result.is_ok();
        if operation.context.audit_required {
            self.audit_trail.record_crypto_operation(operation, handle.algorithm, owner,
                succeeded);
        }
        let latency = if succeeded {
            crypto_latency_for(owner, operation.operation_type)
        } else {
            0
        };
        self.metrics.record_operation(owner, succeeded, latency);
        proof {
            assert(self.providers@.len() == old(self).providers@.len());
            assert(forall|j: int|
                0 <= j < self.providers@.len() ==> (#[trigger] self.providers@[j]).model().provider_type
                    == old(self).providers@[j].model().provider_type);
            lemma_same_types_same_registered(old(self).providers@, self.providers@,
                HsmProviderType::AwsCloudHsm);
            lemma_same_types_same_registered(old(self).providers@, self.providers@,
                HsmProviderType::AzureKeyVault);
            lemma_same_types_same_registered(old(self).providers@, self.providers@,
                HsmProviderType::Pkcs11Generic);
            assert(self.wf());
        }
        result
    }

    /// Queries every provider; in this deterministic core every probe
    /// answers, so the report carries one entry per registered backend, in
    /// registration order.
    pub fn health_check(&self, now_ms: u64) -> (r: Vec<HsmHealthStatus>)
        requires
            self.wf(),
        ensures
            r@.len() == self.providers@.len(),
            forall|i: int|
                0 <= i < r@.len() ==> (#[trigger] r@[i]).provider
                    == self.providers@[i].model().provider_type && r@[i].status
                    == HealthStatus::Healthy && r@[i].last_check == now_ms,
    {
        let mut out: Vec<HsmHealthStatus> = Vec::new();
        let n = self.providers.len();
        let mut i: usize = 0;
        while i < n
            invariant
                n == self.providers@.len(),
                0 <= i <= n,
                out@.len() == i,
                forall|j: int|
                    0 <= j < i ==> (#[trigger] out@[j]).provider
                        == self.providers@[j].model().provider_type && out@[j].status
                        == HealthStatus::Healthy && out@[j].last_check == now_ms,
            decreases n - i,
        {
            let status = self.providers[i].health_check(now_ms);
            out.push(status);
            i = i + 1;
        }
        out
    }

    /// The counters of every backend that has completed at least one
    /// operation since construction; a backend with none is absent.  With no
    /// intervening operations, two consecutive reports are identical.
    pub fn get_aggregated_metrics(&self) -> (r: Vec<HsmMetrics>)
        ensures
            r@ == aggregated_view(self.metrics.entries@),
    {
        self.metrics.aggregated()
    }

    /// Number of audit records appended so far.
    pub fn audit_len(&self) -> (r: usize)
        ensures
            r == self.audit_trail.records@.len(),
    {
        self.audit_trail.len()
    }
}

} // verus!
