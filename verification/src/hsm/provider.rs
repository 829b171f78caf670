//! Provider capability interface and the three backend implementations.
//!
//! A backend is anything offering the `HsmProvider` interface: key
//! generation, key retrieval, cryptographic operations, deletion, listing,
//! health checks and metrics.  The vendor wire protocols live outside this
//! core; each backend here drives the shared `ProviderCore`, a deterministic
//! stand-in with a per-backend latency profile, its own bounded connection
//! pool and its own rolling counters.  The per-call timeout is decided as a
//! race between the operation's simulated duration and the configured bound:
//! an operation whose duration exceeds the bound yields `OperationTimeout`
//! and leaves the key store unchanged.

use vstd::prelude::*;

use crate::hsm::algorithm_is_base;
use crate::hsm::algorithm_is_signature;
use crate::hsm::algorithm_key_size_bits;
use crate::hsm::config::AwsCloudHsmConfig;
use crate::hsm::config::AzureKeyVaultConfig;
use crate::hsm::config::Pkcs11Config;
use crate::hsm::CryptoOperation;
use crate::hsm::CryptoOperationType;
use crate::hsm::CryptoResult;
use crate::hsm::HealthStatus;
use crate::hsm::HsmError;
use crate::hsm::HsmHealthStatus;
use crate::hsm::HsmKeyHandle;
use crate::hsm::HsmKeyInfo;
use crate::hsm::HsmOperationMetrics;
use crate::hsm::HsmProviderType;
use crate::hsm::KeyStatus;
use crate::hsm::KeyUsagePolicy;
use crate::hsm::key_size_bits_for;
use crate::hsm::metrics::HsmMetrics;
use crate::hsm::metrics::record_post;
use crate::hsm::PqcAlgorithm;
use crate::hsm::pool::HsmConnectionPool;
use crate::hsm::usage_policy_for;
use crate::strutil::str_eq;

verus! {

/// Milliseconds in the one-year validity window stamped on generated keys.
pub const MS_PER_YEAR: u64 = 365 * 24 * 60 * 60 * 1000;

/// Largest caller timestamp for which the expiry stamp cannot overflow.
pub const MAX_TIMESTAMP_MS: u64 = u64::MAX - MS_PER_YEAR;

/// Relies on `uuid::Uuid::new_v4` and its `Display` form: a fresh random
/// identifier rendered as the 36-character hyphenated form.  Nothing beyond
/// the length is promised: the value is random.
#[verifier::external_body]
fn fresh_operation_uuid() -> (r: String)
    ensures
        r@.len() == 36,
{
    uuid::Uuid::new_v4().to_string()
}

/// Simulated duration of generating a key, per backend and algorithm.
pub open spec fn gen_latency_ms(provider: HsmProviderType, algorithm: PqcAlgorithm) -> u64 {
    match provider {
        HsmProviderType::AwsCloudHsm => match algorithm {
            PqcAlgorithm::Kyber1024 => 50,
            PqcAlgorithm::Dilithium3 => 75,
            _ => 200,
        },
        HsmProviderType::AzureKeyVault => match algorithm {
            PqcAlgorithm::Kyber1024 => 80,
            PqcAlgorithm::Dilithium3 => 120,
            _ => 160,
        },
        _ => match algorithm {
            PqcAlgorithm::Kyber1024 => 40,
            PqcAlgorithm::Dilithium3 => 60,
            _ => 180,
        },
    }
}

/// Simulated duration of one cryptographic operation, per backend and kind.
pub open spec fn crypto_latency_ms(provider: HsmProviderType, op: CryptoOperationType) -> u64 {
    match provider {
        HsmProviderType::AwsCloudHsm => match op {
            CryptoOperationType::Encrypt => 25,
            CryptoOperationType::Decrypt => 30,
            CryptoOperationType::Sign => 40,
            CryptoOperationType::Verify => 20,
            _ => 50,
        },
        HsmProviderType::AzureKeyVault => match op {
            CryptoOperationType::Encrypt => 35,
            CryptoOperationType::Decrypt => 40,
            CryptoOperationType::Sign => 50,
            CryptoOperationType::Verify => 30,
            _ => 60,
        },
        _ => match op {
            CryptoOperationType::Encrypt => 20,
            CryptoOperationType::Decrypt => 25,
            CryptoOperationType::Sign => 30,
            CryptoOperationType::Verify => 15,
            _ => 45,
        },
    }
}

/// The timeout race, decided deterministically: the operation times out
/// exactly when its duration exceeds the configured bound.  A zero bound
/// therefore times out every operation.
pub open spec fn times_out(latency_ms: u64, timeout_seconds: u64) -> bool {
    latency_ms > timeout_seconds * 1000
}

/// Executable twin of `gen_latency_ms`.
pub fn gen_latency_for(provider: HsmProviderType, algorithm: PqcAlgorithm) -> (r: u64)
    ensures
        r == gen_latency_ms(provider, algorithm),
{
    match provider {
        HsmProviderType::AwsCloudHsm => match algorithm {
            PqcAlgorithm::Kyber1024 => 50,
            PqcAlgorithm::Dilithium3 => 75,
            _ => 200,
        },
        HsmProviderType::AzureKeyVault => match algorithm {
            PqcAlgorithm::Kyber1024 => 80,
            PqcAlgorithm::Dilithium3 => 120,
            _ => 160,
        },
        _ => match algorithm {
            PqcAlgorithm::Kyber1024 => 40,
            PqcAlgorithm::Dilithium3 => 60,
            _ => 180,
        },
    }
}

/// Executable twin of `crypto_latency_ms`.
pub fn crypto_latency_for(provider: HsmProviderType, op: CryptoOperationType) -> (r: u64)
    ensures
        r == crypto_latency_ms(provider, op),
{
    match provider {
        HsmProviderType::AwsCloudHsm => match op {
            CryptoOperationType::Encrypt => 25,
            CryptoOperationType::Decrypt => 30,
            CryptoOperationType::Sign => 40,
            CryptoOperationType::Verify => 20,
            _ => 50,
        },
        HsmProviderType::AzureKeyVault => match op {
            CryptoOperationType::Encrypt => 35,
            CryptoOperationType::Decrypt => 40,
            CryptoOperationType::Sign => 50,
            CryptoOperationType::Verify => 30,
            _ => 60,
        },
        _ => match op {
            CryptoOperationType::Encrypt => 20,
            CryptoOperationType::Decrypt => 25,
            CryptoOperationType::Sign => 30,
            CryptoOperationType::Verify => 15,
            _ => 45,
        },
    }
}

/// Executable twin of `times_out`, guarding the multiplication.
pub fn exceeds_timeout(latency_ms: u64, timeout_seconds: u64) -> (r: bool)
    ensures
        r == times_out(latency_ms, timeout_seconds),
{
    if timeout_seconds <= u64::MAX / 1000 {
        proof {
            assert(timeout_seconds * 1000 <= u64::MAX) by (nonlinear_arith)
                requires
                    timeout_seconds <= u64::MAX / 1000,
            ;
        }
        latency_ms > timeout_seconds * 1000
    } else {
        proof {
            assert(timeout_seconds * 1000 > u64::MAX) by (nonlinear_arith)
                requires
                    timeout_seconds > u64::MAX / 1000,
            ;
        }
        false
    }
}

/// First index holding `key_id`, searching from the front.
pub open spec fn find_key_index(keys: Seq<HsmKeyHandle>, key_id: Seq<char>) -> Option<int>
    decreases keys.len(),
{
    if keys.len() == 0 {
        None
    } else if keys[0].key_id@ == key_id {
        Some(0int)
    } else {
        match find_key_index(keys.drop_first(), key_id) {
            Some(i) => Some(i + 1),
            None => None,
        }
    }
}

/// The stored handle a lookup returns: the first one carrying `key_id`.
pub open spec fn find_key(keys: Seq<HsmKeyHandle>, key_id: Seq<char>) -> Option<HsmKeyHandle> {
    match find_key_index(keys, key_id) {
        Some(i) => Some(keys[i]),
        None => None,
    }
}

/// The index returned by `find_key_index` is in range, matches, and nothing
/// before it matches.
pub proof fn lemma_find_key_index(keys: Seq<HsmKeyHandle>, key_id: Seq<char>)
    ensures
        find_key_index(keys, key_id) matches Some(i) ==> 0 <= i < keys.len()
            && keys[i].key_id@ == key_id && (forall|j: int|
            0 <= j < i ==> (#[trigger] keys[j]).key_id@ != key_id),
        find_key_index(keys, key_id) is None ==> forall|j: int|
            0 <= j < keys.len() ==> (#[trigger] keys[j]).key_id@ != key_id,
    decreases keys.len(),
{
    if keys.len() > 0 && keys[0].key_id@ != key_id {
        let rest = keys.drop_first();
        lemma_find_key_index(rest, key_id);
        match find_key_index(rest, key_id) {
            Some(i2) => {
                assert(keys[i2 + 1] == rest[i2]);
                assert forall|j: int| 0 <= j < i2 + 1 implies (#[trigger] keys[j]).key_id@
                    != key_id by {
                    if j > 0 {
                        assert(rest[j - 1] == keys[j]);
                    }
                }
            },
            None => {
                assert forall|j: int| 0 <= j < keys.len() implies (#[trigger] keys[j]).key_id@
                    != key_id by {
                    if j > 0 {
                        assert(rest[j - 1] == keys[j]);
                    }
                }
            },
        }
    }
}

/// Field-level agreement of two usage policies, comparing the allow-lists
/// by their character contents.
pub open spec fn policy_like(a: KeyUsagePolicy, b: KeyUsagePolicy) -> bool {
    &&& a.can_encrypt == b.can_encrypt
    &&& a.can_decrypt == b.can_decrypt
    &&& a.can_sign == b.can_sign
    &&& a.can_verify == b.can_verify
    &&& a.can_derive == b.can_derive
    &&& a.can_export == b.can_export
    &&& a.max_uses == b.max_uses
    &&& a.allowed_users@.len() == b.allowed_users@.len()
    &&& forall|i: int|
        0 <= i < a.allowed_users@.len() ==> (#[trigger] a.allowed_users@[i])@
            == b.allowed_users@[i]@
    &&& a.allowed_applications@.len() == b.allowed_applications@.len()
    &&& forall|i: int|
        0 <= i < a.allowed_applications@.len() ==> (#[trigger] a.allowed_applications@[i])@
            == b.allowed_applications@[i]@
}

/// Field-level agreement of two key handles, comparing strings by their
/// character contents.
pub open spec fn handle_like(a: HsmKeyHandle, b: HsmKeyHandle) -> bool {
    &&& a.key_id@ == b.key_id@
    &&& a.algorithm == b.algorithm
    &&& a.provider == b.provider
    &&& a.created_at == b.created_at
    &&& a.expires_at == b.expires_at
    &&& a.key_size_bits == b.key_size_bits
    &&& policy_like(a.usage_policy, b.usage_policy)
    &&& a.hardware_backed == b.hardware_backed
    &&& a.fips_compliant == b.fips_compliant
}

/// Fields a freshly generated handle must carry.
pub open spec fn handle_matches(
    h: HsmKeyHandle,
    algorithm: PqcAlgorithm,
    key_id: Seq<char>,
    now_ms: u64,
    provider: HsmProviderType,
    hardware_backed: bool,
    fips_compliant: bool,
) -> bool {
    &&& h.key_id@ == key_id
    &&& h.algorithm == algorithm
    &&& h.provider == provider
    &&& h.created_at == now_ms
    &&& h.expires_at == Some((now_ms + MS_PER_YEAR) as u64)
    &&& h.key_size_bits == algorithm_key_size_bits(algorithm)
    &&& h.hardware_backed == hardware_backed
    &&& h.fips_compliant == fips_compliant
    &&& algorithm_is_signature(algorithm) ==> !h.usage_policy.can_encrypt
        && !h.usage_policy.can_decrypt && h.usage_policy.can_sign && h.usage_policy.can_verify
    &&& !algorithm_is_signature(algorithm) ==> h.usage_policy.can_encrypt
        && h.usage_policy.can_decrypt && h.usage_policy.can_sign && h.usage_policy.can_verify
    &&& h.wf()
}

/// Copies a vector of strings, preserving each element's characters.
fn clone_strings(v: &Vec<String>) -> (r: Vec<String>)
    ensures
        r@.len() == v@.len(),
        forall|i: int| 0 <= i < v@.len() ==> (#[trigger] r@[i])@ == v@[i]@,
{
    let mut out: Vec<String> = Vec::new();
    let n = v.len();
    let mut i: usize = 0;
    while i < n
        invariant
            n == v@.len(),
            0 <= i <= n,
            out@.len() == i,
            forall|j: int| 0 <= j < i ==> (#[trigger] out@[j])@ == v@[j]@,
        decreases n - i,
    {
        out.push(v[i].clone());
        i = i + 1;
    }
    out
}

/// Copies a usage policy, preserving every field.
fn clone_policy(p: &KeyUsagePolicy) -> (r: KeyUsagePolicy)
    ensures
        policy_like(r, *p),
        policy_like(*p, r),
{
    KeyUsagePolicy {
        can_encrypt: p.can_encrypt,
        can_decrypt: p.can_decrypt,
        can_sign: p.can_sign,
        can_verify: p.can_verify,
        can_derive: p.can_derive,
        can_export: p.can_export,
        max_uses: p.max_uses,
        allowed_users: clone_strings(&p.allowed_users),
        allowed_applications: clone_strings(&p.allowed_applications),
    }
}

/// Copies a key handle, preserving every field.
fn clone_handle(h: &HsmKeyHandle) -> (r: HsmKeyHandle)
    ensures
        handle_like(r, *h),
        handle_like(*h, r),
{
    HsmKeyHandle {
        key_id: h.key_id.clone(),
        algorithm: h.algorithm,
        provider: h.provider,
        created_at: h.created_at,
        expires_at: h.expires_at,
        key_size_bits: h.key_size_bits,
        usage_policy: clone_policy(&h.usage_policy),
        hardware_backed: h.hardware_backed,
        fips_compliant: h.fips_compliant,
    }
}

/// Deterministic per-backend simulation state shared by the three provider
/// implementations: the key store, the bounded connection pool, the rolling
/// counters, the per-call timeout, and the backing-hardware flags.
#[derive(Debug)]
pub struct ProviderCore {
    pub provider_type: HsmProviderType,
    pub keys: Vec<HsmKeyHandle>,
    pub pool: HsmConnectionPool,
    pub metrics: HsmMetrics,
    pub timeout_seconds: u64,
    pub hardware_backed: bool,
    pub fips_compliant: bool,
}

/// Everything one key-generation attempt may do to a backend, and exactly
/// when each outcome arises.  Unsupported algorithms are rejected before a
/// connection is drawn; pool exhaustion precedes the timeout race; a timed
/// out attempt leaves the key store unchanged; exactly one operation is
/// folded into the counters whatever the outcome.
pub open spec fn gen_post(
    pre: ProviderCore,
    post: ProviderCore,
    algorithm: PqcAlgorithm,
    key_id: Seq<char>,
    now_ms: u64,
    r: Result<HsmKeyHandle, HsmError>,
) -> bool {
    let latency = gen_latency_ms(pre.provider_type, algorithm);
    &&& post.provider_type == pre.provider_type
    &&& post.timeout_seconds == pre.timeout_seconds
    &&& post.hardware_backed == pre.hardware_backed
    &&& post.fips_compliant == pre.fips_compliant
    &&& post.pool.max_connections == pre.pool.max_connections
    &&& !algorithm_is_base(algorithm) ==> r == Err::<HsmKeyHandle, HsmError>(
        HsmError::UnsupportedAlgorithm,
    ) && post.pool.idle@ == pre.pool.idle@ && post.pool.current_connections
        == pre.pool.current_connections
    &&& algorithm_is_base(algorithm) && !pre.pool.can_acquire() ==> r == Err::<
        HsmKeyHandle,
        HsmError,
    >(HsmError::ResourceExhausted) && post.pool.idle@ == pre.pool.idle@
        && post.pool.current_connections == pre.pool.current_connections
    &&& algorithm_is_base(algorithm) && pre.pool.can_acquire() && times_out(
        latency,
        pre.timeout_seconds,
    ) ==> r == Err::<HsmKeyHandle, HsmError>(HsmError::OperationTimeout)
    &&& algorithm_is_base(algorithm) && pre.pool.can_acquire() && !times_out(
        latency,
        pre.timeout_seconds,
    ) ==> r is Ok
    &&& r is Err ==> post.keys@ == pre.keys@
    &&& r matches Ok(h) ==> handle_matches(h, algorithm, key_id, now_ms, pre.provider_type,
        pre.hardware_backed, pre.fips_compliant) && post.keys@.len() == pre.keys@.len() + 1
        && post.keys@.drop_last() == pre.keys@ && handle_matches(post.keys@.last(), algorithm,
        key_id, now_ms, pre.provider_type, pre.hardware_backed, pre.fips_compliant)
    &&& algorithm_is_base(algorithm) && pre.pool.can_acquire() ==> post.pool.outstanding()
        == pre.pool.outstanding() && post.pool.current_connections == (if pre.pool.idle@.len()
        > 0 {
        pre.pool.current_connections as int
    } else {
        pre.pool.current_connections + 1
    })
    &&& record_post(pre.metrics, post.metrics, r is Ok, if r is Ok {
        latency
    } else {
        0
    })
}

/// Everything one cryptographic operation may do to a backend.  The key
/// store is never touched; the pool is cycled; one operation is folded into
/// the counters; a completed operation reports `success == true` with the
/// simulated duration and a fresh operation identifier.
pub open spec fn crypto_post(
    pre: ProviderCore,
    post: ProviderCore,
    op_kind: CryptoOperationType,
    prefix: Seq<char>,
    r: Result<CryptoResult, HsmError>,
) -> bool {
    let latency = crypto_latency_ms(pre.provider_type, op_kind);
    &&& post.provider_type == pre.provider_type
    &&& post.timeout_seconds == pre.timeout_seconds
    &&& post.hardware_backed == pre.hardware_backed
    &&& post.fips_compliant == pre.fips_compliant
    &&& post.pool.max_connections == pre.pool.max_connections
    &&& post.keys@ == pre.keys@
    &&& !pre.pool.can_acquire() ==> r == Err::<CryptoResult, HsmError>(
        HsmError::ResourceExhausted,
    ) && post.pool.idle@ == pre.pool.idle@ && post.pool.current_connections
        == pre.pool.current_connections
    &&& pre.pool.can_acquire() && times_out(latency, pre.timeout_seconds) ==> r == Err::<
        CryptoResult,
        HsmError,
    >(HsmError::OperationTimeout)
    &&& pre.pool.can_acquire() && !times_out(latency, pre.timeout_seconds) ==> r is Ok
    &&& r matches Ok(res) ==> {
        &&& res.success
        &&& res.error_code is None
        &&& res.duration_ms == latency
        &&& res.data@.len() == 32
        &&& forall|i: int| 0 <= i < 32 ==> res.data@[i] == 0u8
        &&& res.operation_id@.len() == prefix.len() + 36
        &&& res.hsm_metrics.latency_ms == latency
    }
    &&& pre.pool.can_acquire() ==> post.pool.outstanding() == pre.pool.outstanding()
        && post.pool.current_connections == (if pre.pool.idle@.len() > 0 {
        pre.pool.current_connections as int
    } else {
        pre.pool.current_connections + 1
    })
    &&& record_post(pre.metrics, post.metrics, r is Ok, if r is Ok {
        latency
    } else {
        0
    })
}

impl ProviderCore {
    /// Pool and counters are well formed and the counters are keyed by this
    /// backend.
    pub open spec fn wf(&self) -> bool {
        &&& self.pool.wf()
        &&& self.metrics.wf()
        &&& self.metrics.provider == self.provider_type
        &&& forall|i: int| 0 <= i < self.keys@.len() ==> (#[trigger] self.keys@[i]).wf()
        &&& forall|i: int|
            0 <= i < self.keys@.len() ==> (#[trigger] self.keys@[i]).provider
                == self.provider_type
    }

    /// A fresh backend: empty key store, empty pool, zeroed counters.
    pub fn new(
        provider_type: HsmProviderType,
        pool_size: u32,
        timeout_seconds: u64,
        hardware_backed: bool,
        fips_compliant: bool,
    ) -> (r: Self)
        ensures
            r.wf(),
            r.provider_type == provider_type,
            r.keys@.len() == 0,
            r.pool.max_connections == pool_size,
            r.pool.current_connections == 0,
            r.pool.idle@.len() == 0,
            r.metrics.total_operations == 0,
            r.metrics.successful_operations == 0,
            r.metrics.failed_operations == 0,
            r.metrics.total_latency_ms == 0,
            r.metrics.average_latency_ms == 0,
            r.metrics.peak_latency_ms == 0,
            r.timeout_seconds == timeout_seconds,
            r.hardware_backed == hardware_backed,
            r.fips_compliant == fips_compliant,
    {
        ProviderCore {
            provider_type,
            keys: Vec::new(),
            pool: HsmConnectionPool::new(pool_size),
            metrics: HsmMetrics::new(provider_type),
            timeout_seconds,
            hardware_backed,
            fips_compliant,
        }
    }

    /// One key-generation attempt under the configured timeout.
    pub fn generate_pqc_key(&mut self, algorithm: PqcAlgorithm, key_id: &str, now_ms: u64) -> (r:
        Result<HsmKeyHandle, HsmError>)
        requires
            old(self).wf(),
            now_ms <= MAX_TIMESTAMP_MS,
        ensures
            final(self).wf(),
            gen_post(*old(self), *final(self), algorithm, key_id@, now_ms, r),
    {
        if !matches!(algorithm, PqcAlgorithm::Kyber1024 | PqcAlgorithm::Dilithium3
            | PqcAlgorithm::SphincsPlusSha256128s) {
            self.metrics.record_operation(false, 0);
            return Err(HsmError::UnsupportedAlgorithm);
        }
        let conn = match self.pool.get_connection(now_ms) {
            Ok(c) => c,
            Err(e) => {
                self.metrics.record_operation(false, 0);
                return Err(e);
            },
        };
        let latency = gen_latency_for(self.provider_type, algorithm);
        if exceeds_timeout(latency, self.timeout_seconds) {
            self.pool.return_connection(conn);
            self.metrics.record_operation(false, 0);
            return Err(HsmError::OperationTimeout);
        }
        let stored = HsmKeyHandle {
            key_id: key_id.to_owned(),
            algorithm,
            provider: self.provider_type,
            created_at: now_ms,
            expires_at: Some(now_ms + MS_PER_YEAR),
            key_size_bits: key_size_bits_for(algorithm),
            usage_policy: usage_policy_for(algorithm),
            hardware_backed: self.hardware_backed,
            fips_compliant: self.fips_compliant,
        };
        let returned = HsmKeyHandle {
            key_id: key_id.to_owned(),
            algorithm,
            provider: self.provider_type,
            created_at: now_ms,
            expires_at: Some(now_ms + MS_PER_YEAR),
            key_size_bits: key_size_bits_for(algorithm),
            usage_policy: usage_policy_for(algorithm),
            hardware_backed: self.hardware_backed,
            fips_compliant: self.fips_compliant,
        };
        self.keys.push(stored);
        proof {
            assert(self.keys@.drop_last() =~= old(self).keys@);
        }
        self.pool.return_connection(conn);
        self.metrics.record_operation(true, latency);
        Ok(returned)
    }

    /// Retrieves the first stored handle carrying `key_id`.
    pub fn get_key(&self, key_id: &str) -> (r: Result<HsmKeyHandle, HsmError>)
        ensures
            r is Ok <==> find_key(self.keys@, key_id@) is Some,
            r matches Ok(h) ==> (find_key(self.keys@, key_id@) matches Some(s) && handle_like(
                h,
                s,
            )),
            r is Err ==> r == Err::<HsmKeyHandle, HsmError>(HsmError::KeyNotFound),
    {
        proof {
            lemma_find_key_index(self.keys@, key_id@);
        }
        match self.find_index(key_id) {
            Some(i) => {
                let copy = clone_handle(&self.keys[i]);
                Ok(copy)
            },
            None => Err(HsmError::KeyNotFound),
        }
    }

    /// Index of the first stored handle carrying `key_id`.
    fn find_index(&self, key_id: &str) -> (r: Option<usize>)
        ensures
            r matches Some(i) ==> Some(i as int) == find_key_index(self.keys@, key_id@),
            r is None ==> find_key_index(self.keys@, key_id@) is None,
    {
        let n = self.keys.len();
        let mut i: usize = 0;
        while i < n
            invariant
                n == self.keys@.len(),
                0 <= i <= n,
                forall|j: int| 0 <= j < i ==> (#[trigger] self.keys@[j]).key_id@ != key_id@,
            decreases n - i,
        {
            if str_eq(self.keys[i].key_id.as_str(), key_id) {
                proof {
                    lemma_find_key_index(self.keys@, key_id@);
                    if find_key_index(self.keys@, key_id@) is None {
                        assert(self.keys@[i as int].key_id@ != key_id@);
                    }
                    let k = find_key_index(self.keys@, key_id@)->Some_0;
                    if k < i as int {
                        assert(self.keys@[k].key_id@ != key_id@);
                    }
                    if k > i as int {
                        assert(self.keys@[i as int].key_id@ != key_id@);
                    }
                }
                return Some(i);
            }
            i = i + 1;
        }
        proof {
            lemma_find_key_index(self.keys@, key_id@);
            if find_key_index(self.keys@, key_id@) is Some {
                let k = find_key_index(self.keys@, key_id@)->Some_0;
                assert(self.keys@[k].key_id@ == key_id@);
            }
        }
        None
    }

    /// One cryptographic operation under the configured timeout.  The
    /// backend completes the operation; a data mismatch would surface in
    /// `success`, never as an error.
    pub fn crypto_operation(&mut self, operation: &CryptoOperation, id_prefix: &str) -> (r:
        Result<CryptoResult, HsmError>)
        requires
            old(self).wf(),
            id_prefix@.len() <= 100,
        ensures
            final(self).wf(),
            crypto_post(*old(self), *final(self), operation.operation_type, id_prefix@, r),
    {
        let now_ms = operation.context.timestamp;
        let conn = match self.pool.get_connection(now_ms) {
            Ok(c) => c,
            Err(e) => {
                self.metrics.record_operation(false, 0);
                return Err(e);
            },
        };
        let latency = crypto_latency_for(self.provider_type, operation.operation_type);
        if exceeds_timeout(latency, self.timeout_seconds) {
            self.pool.return_connection(conn);
            self.metrics.record_operation(false, 0);
            return Err(HsmError::OperationTimeout);
        }
        let mut data: Vec<u8> = Vec::new();
        let mut i: usize = 0;
        while i < 32
            invariant
                0 <= i <= 32,
                data@.len() == i,
                forall|j: int| 0 <= j < i ==> data@[j] == 0u8,
            decreases 32 - i,
        {
            data.push(0u8);
            i = i + 1;
        }
        let operation_id = id_prefix.to_owned().concat(fresh_operation_uuid().as_str());
        let result = CryptoResult {
            data,
            operation_id,
            duration_ms: latency,
            success: true,
            error_code: None,
            hsm_metrics: HsmOperationMetrics {
                latency_ms: latency,
                memory_usage_kb: 1024,
                network_latency_ms: Some(5),
            },
        };
        self.pool.return_connection(conn);
        self.metrics.record_operation(true, latency);
        Ok(result)
    }

    /// Removes the first stored handle carrying `key_id`; removing an absent
    /// key succeeds and changes nothing.  Handle values already returned to
    /// callers are not invalidated.
    pub fn delete_key(&mut self, key_id: &str) -> (r: Result<(), HsmError>)
        requires
            old(self).wf(),
        ensures
            final(self).wf(),
            r is Ok,
            final(self).provider_type == old(self).provider_type,
            final(self).timeout_seconds == old(self).timeout_seconds,
            final(self).hardware_backed == old(self).hardware_backed,
            final(self).fips_compliant == old(self).fips_compliant,
            final(self).pool == old(self).pool,
            final(self).metrics == old(self).metrics,
            find_key_index(old(self).keys@, key_id@) matches Some(i) ==> final(self).keys@
                == old(self).keys@.remove(i),
            find_key_index(old(self).keys@, key_id@) is None ==> final(self).keys@ == old(self).keys@,
    {
        proof {
            lemma_find_key_index(self.keys@, key_id@);
        }
        match self.find_index(key_id) {
            Some(i) => {
                self.keys.remove(i);
                Ok(())
            },
            None => Ok(()),
        }
    }

    /// Summaries of every stored key, in storage order.
    pub fn list_keys(&self) -> (r: Vec<HsmKeyInfo>)
        ensures
            r@.len() == self.keys@.len(),
            forall|i: int|
                0 <= i < r@.len() ==> {
                    let info = #[trigger] r@[i];
                    &&& info.key_id@ == self.keys@[i].key_id@
                    &&& info.algorithm == self.keys@[i].algorithm
                    &&& info.created_at == self.keys@[i].created_at
                    &&& info.size_bits == self.keys@[i].key_size_bits
                    &&& info.status == KeyStatus::Active
                    &&& info.usage_count == 0
                    &&& info.last_used is None
                },
    {
        let mut out: Vec<HsmKeyInfo> = Vec::new();
        let n = self.keys.len();
        let mut i: usize = 0;
        while i < n
            invariant
                n == self.keys@.len(),
                0 <= i <= n,
                out@.len() == i,
                forall|j: int|
                    0 <= j < i ==> {
                        let info = #[trigger] out@[j];
                        &&& info.key_id@ == self.keys@[j].key_id@
                        &&& info.algorithm == self.keys@[j].algorithm
                        &&& info.created_at == self.keys@[j].created_at
                        &&& info.size_bits == self.keys@[j].key_size_bits
                        &&& info.status == KeyStatus::Active
                        &&& info.usage_count == 0
                        &&& info.last_used is None
                    },
            decreases n - i,
        {
            let h = &self.keys[i];
            out.push(HsmKeyInfo {
                key_id: h.key_id.clone(),
                algorithm: h.algorithm,
                created_at: h.created_at,
                last_used: None,
                usage_count: 0,
                size_bits: h.key_size_bits,
                status: KeyStatus::Active,
            });
            i = i + 1;
        }
        out
    }

    /// Health report of the simulated backend: always reachable, with a
    /// fixed simulated probe duration.
    pub fn health_check(&self, now_ms: u64) -> (r: HsmHealthStatus)
        ensures
            r.provider == self.provider_type,
            r.status == HealthStatus::Healthy,
            r.response_time_ms == 20,
            r.last_check == now_ms,
            r.available_slots == Some(8u32),
            r.error_details is None,
    {
        HsmHealthStatus {
            provider: self.provider_type,
            status: HealthStatus::Healthy,
            response_time_ms: 20,
            last_check: now_ms,
            available_slots: Some(8),
            firmware_version: Some("2.5.1".to_owned()),
            error_details: None,
        }
    }

    /// The backend's own rolling counters.
    pub fn get_metrics(&self) -> (r: HsmMetrics)
        ensures
            r == self.metrics,
    {
        self.metrics
    }
}

/// The capability interface every backend offers to the manager.  Each
/// implementation exposes its simulation state through `core`, and every
/// method is specified against that state alone.
pub trait HsmProvider: Sized {
    /// The backend's simulation state.
    spec fn model(&self) -> ProviderCore;

    /// Generates a key under the per-call timeout; appends exactly one
    /// operation to the backend counters whatever the outcome.
    fn generate_pqc_key(&mut self, algorithm: PqcAlgorithm, key_id: &str, now_ms: u64) -> (r:
        Result<HsmKeyHandle, HsmError>)
        requires
            old(self).model().wf(),
            now_ms <= MAX_TIMESTAMP_MS,
        ensures
            final(self).model().wf(),
            gen_post(old(self).model(), final(self).model(), algorithm, key_id@, now_ms, r),
    ;

    /// Retrieves the first stored handle carrying `key_id`, failing with
    /// `KeyNotFound` exactly when no stored handle carries it.
    fn get_key(&self, key_id: &str) -> (r: Result<HsmKeyHandle, HsmError>)
        ensures
            r is Ok <==> find_key(self.model().keys@, key_id@) is Some,
            r matches Ok(h) ==> (find_key(self.model().keys@, key_id@) matches Some(s)
                && handle_like(h, s)),
            r is Err ==> r == Err::<HsmKeyHandle, HsmError>(HsmError::KeyNotFound),
    ;

    /// Performs one cryptographic operation under the per-call timeout.
    fn crypto_operation(&mut self, operation: &CryptoOperation) -> (r: Result<
        CryptoResult,
        HsmError,
    >)
        requires
            old(self).model().wf(),
        ensures
            final(self).model().wf(),
            exists|prefix: Seq<char>|
                prefix.len() <= 100 && crypto_post(old(self).model(), final(self).model(),
                operation.operation_type, prefix, r),
    ;

    /// Deletes the first stored handle carrying `key_id`; absent keys are
    /// tolerated.
    fn delete_key(&mut self, key_id: &str) -> (r: Result<(), HsmError>)
        requires
            old(self).model().wf(),
        ensures
            final(self).model().wf(),
            r is Ok,
            final(self).model().pool == old(self).model().pool,
            final(self).model().metrics == old(self).model().metrics,
            find_key_index(old(self).model().keys@, key_id@) matches Some(i) ==> final(self).model().keys@ == old(self).model().keys@.remove(i),
            find_key_index(old(self).model().keys@, key_id@) is None ==> final(self).model().keys@
                == old(self).model().keys@,
    ;

    /// Summaries of every stored key, in storage order.
    fn list_keys(&self) -> (r: Vec<HsmKeyInfo>)
        ensures
            r@.len() == self.model().keys@.len(),
            forall|i: int|
                0 <= i < r@.len() ==> (#[trigger] r@[i]).key_id@ == self.model().keys@[i].key_id@
                    && r@[i].algorithm == self.model().keys@[i].algorithm,
    ;

    /// Health and connectivity report.
    fn health_check(&self, now_ms: u64) -> (r: HsmHealthStatus)
        ensures
            r.provider == self.model().provider_type,
            r.status == HealthStatus::Healthy,
            r.last_check == now_ms,
    ;

    /// The backend's own rolling counters.
    fn get_metrics(&self) -> (r: HsmMetrics)
        ensures
            r == self.model().metrics,
    ;
}

/// Cloud HSM backend: hardware backed and FIPS compliant.
#[derive(Debug)]
pub struct AwsCloudHsmProvider {
    pub state: ProviderCore,
}

impl AwsCloudHsmProvider {
    /// Builds the backend from its configuration; a missing cluster
    /// identifier is a fatal configuration error.
    pub fn new(config: &AwsCloudHsmConfig, timeout_seconds: u64) -> (r: Result<Self, HsmError>)
        ensures
            r is Ok <==> config.cluster_id@.len() > 0,
            r is Err ==> r == Err::<Self, HsmError>(HsmError::ConfigurationError),
            r matches Ok(p) ==> p.state.wf() && p.state.provider_type
                == HsmProviderType::AwsCloudHsm && p.state.keys@.len() == 0
                && p.state.pool.max_connections == config.connection_pool_size
                && p.state.pool.outstanding() == 0 && p.state.metrics.total_operations == 0 && p.state.metrics.successful_operations == 0 && p.state.metrics.failed_operations == 0 && p.state.metrics.total_latency_ms == 0 && p.state.metrics.average_latency_ms == 0 && p.state.metrics.peak_latency_ms == 0
                && p.state.timeout_seconds == timeout_seconds && p.state.hardware_backed
                && p.state.fips_compliant,
    {
        if config.cluster_id.as_str().is_empty() {
            return Err(HsmError::ConfigurationError);
        }
        Ok(AwsCloudHsmProvider {
            state: ProviderCore::new(
                HsmProviderType::AwsCloudHsm,
                config.connection_pool_size,
                timeout_seconds,
                true,
                true,
            ),
        })
    }
}

impl HsmProvider for AwsCloudHsmProvider {
    open spec fn model(&self) -> ProviderCore {
        self.state
    }

    fn generate_pqc_key(&mut self, algorithm: PqcAlgorithm, key_id: &str, now_ms: u64) -> (r:
        Result<HsmKeyHandle, HsmError>) {
        self.state.generate_pqc_key(algorithm, key_id, now_ms)
    }

    fn get_key(&self, key_id: &str) -> (r: Result<HsmKeyHandle, HsmError>) {
        self.state.get_key(key_id)
    }

    fn crypto_operation(&mut self, operation: &CryptoOperation) -> (r: Result<
        CryptoResult,
        HsmError,
    >) {
        proof {
            reveal_strlit("aws-op-");
        }
        let r = self.state.crypto_operation(operation, "aws-op-");
        proof {
            assert(crypto_post(old(self).model(), self.model(), operation.operation_type,
                "aws-op-"@, r));
        }
        r
    }

    fn delete_key(&mut self, key_id: &str) -> (r: Result<(), HsmError>) {
        self.state.delete_key(key_id)
    }

    fn list_keys(&self) -> (r: Vec<HsmKeyInfo>) {
        self.state.list_keys()
    }

    fn health_check(&self, now_ms: u64) -> (r: HsmHealthStatus) {
        self.state.health_check(now_ms)
    }

    fn get_metrics(&self) -> (r: HsmMetrics) {
        self.state.get_metrics()
    }
}

/// Managed key-vault backend: hardware backed when the managed HSM tier is
/// enabled, FIPS compliant.
#[derive(Debug)]
pub struct AzureKeyVaultProvider {
    pub state: ProviderCore,
}

impl AzureKeyVaultProvider {
    /// Builds the backend from its configuration; a missing vault URL or
    /// tenant is a fatal configuration error.
    pub fn new(config: &AzureKeyVaultConfig, timeout_seconds: u64) -> (r: Result<Self, HsmError>)
        ensures
            r is Ok <==> config.vault_url@.len() > 0 && config.tenant_id@.len() > 0,
            r is Err ==> r == Err::<Self, HsmError>(HsmError::ConfigurationError),
            r matches Ok(p) ==> p.state.wf() && p.state.provider_type
                == HsmProviderType::AzureKeyVault && p.state.keys@.len() == 0
                && p.state.pool.max_connections == config.connection_pool_size
                && p.state.pool.outstanding() == 0 && p.state.metrics.total_operations == 0 && p.state.metrics.successful_operations == 0 && p.state.metrics.failed_operations == 0 && p.state.metrics.total_latency_ms == 0 && p.state.metrics.average_latency_ms == 0 && p.state.metrics.peak_latency_ms == 0
                && p.state.timeout_seconds == timeout_seconds && p.state.hardware_backed
                == config.enable_managed_hsm && p.state.fips_compliant,
    {
        if config.vault_url.as_str().is_empty() || config.tenant_id.as_str().is_empty() {
            return Err(HsmError::ConfigurationError);
        }
        Ok(AzureKeyVaultProvider {
            state: ProviderCore::new(
                HsmProviderType::AzureKeyVault,
                config.connection_pool_size,
                timeout_seconds,
                config.enable_managed_hsm,
                true,
            ),
        })
    }
}

impl HsmProvider for AzureKeyVaultProvider {
    open spec fn model(&self) -> ProviderCore {
        self.state
    }

    fn generate_pqc_key(&mut self, algorithm: PqcAlgorithm, key_id: &str, now_ms: u64) -> (r:
        Result<HsmKeyHandle, HsmError>) {
        self.state.generate_pqc_key(algorithm, key_id, now_ms)
    }

    fn get_key(&self, key_id: &str) -> (r: Result<HsmKeyHandle, HsmError>) {
        self.state.get_key(key_id)
    }

    fn crypto_operation(&mut self, operation: &CryptoOperation) -> (r: Result<
        CryptoResult,
        HsmError,
    >) {
        proof {
            reveal_strlit("azure-op-");
        }
        let r = self.state.crypto_operation(operation, "azure-op-");
        proof {
            assert(crypto_post(old(self).model(), self.model(), operation.operation_type,
                "azure-op-"@, r));
        }
        r
    }

    fn delete_key(&mut self, key_id: &str) -> (r: Result<(), HsmError>) {
        self.state.delete_key(key_id)
    }

    fn list_keys(&self) -> (r: Vec<HsmKeyInfo>) {
        self.state.list_keys()
    }

    fn health_check(&self, now_ms: u64) -> (r: HsmHealthStatus) {
        self.state.health_check(now_ms)
    }

    fn get_metrics(&self) -> (r: HsmMetrics) {
        self.state.get_metrics()
    }
}

/// Generic hardware-token backend behind a PKCS#11 library: hardware backed,
/// not FIPS certified.
#[derive(Debug)]
pub struct Pkcs11Provider {
    pub state: ProviderCore,
}

impl Pkcs11Provider {
    /// Builds the backend from its configuration; a missing library path is
    /// a fatal configuration error.
    pub fn new(config: &Pkcs11Config, timeout_seconds: u64) -> (r: Result<Self, HsmError>)
        ensures
            r is Ok <==> config.library_path@.len() > 0,
            r is Err ==> r == Err::<Self, HsmError>(HsmError::ConfigurationError),
            r matches Ok(p) ==> p.state.wf() && p.state.provider_type
                == HsmProviderType::Pkcs11Generic && p.state.keys@.len() == 0
                && p.state.pool.max_connections == config.connection_pool_size
                && p.state.pool.outstanding() == 0 && p.state.metrics.total_operations == 0 && p.state.metrics.successful_operations == 0 && p.state.metrics.failed_operations == 0 && p.state.metrics.total_latency_ms == 0 && p.state.metrics.average_latency_ms == 0 && p.state.metrics.peak_latency_ms == 0
                && p.state.timeout_seconds == timeout_seconds && p.state.hardware_backed
                && !p.state.fips_compliant,
    {
        if config.library_path.as_str().is_empty() {
            return Err(HsmError::ConfigurationError);
        }
        Ok(Pkcs11Provider {
            state: ProviderCore::new(
                HsmProviderType::Pkcs11Generic,
                config.connection_pool_size,
                timeout_seconds,
                true,
                false,
            ),
        })
    }
}

impl HsmProvider for Pkcs11Provider {
    open spec fn model(&self) -> ProviderCore {
        self.state
    }

    fn generate_pqc_key(&mut self, algorithm: PqcAlgorithm, key_id: &str, now_ms: u64) -> (r:
        Result<HsmKeyHandle, HsmError>) {
        self.state.generate_pqc_key(algorithm, key_id, now_ms)
    }

    fn get_key(&self, key_id: &str) -> (r: Result<HsmKeyHandle, HsmError>) {
        self.state.get_key(key_id)
    }

    fn crypto_operation(&mut self, operation: &CryptoOperation) -> (r: Result<
        CryptoResult,
        HsmError,
    >) {
        proof {
            reveal_strlit("pkcs11-op-");
        }
        let r = self.state.crypto_operation(operation, "pkcs11-op-");
        proof {
            assert(crypto_post(old(self).model(), self.model(), operation.operation_type,
                "pkcs11-op-"@, r));
        }
        r
    }

    fn delete_key(&mut self, key_id: &str) -> (r: Result<(), HsmError>) {
        self.state.delete_key(key_id)
    }

    fn list_keys(&self) -> (r: Vec<HsmKeyInfo>) {
        self.state.list_keys()
    }

    fn health_check(&self, now_ms: u64) -> (r: HsmHealthStatus) {
        self.state.health_check(now_ms)
    }

    fn get_metrics(&self) -> (r: HsmMetrics) {
        self.state.get_metrics()
    }
}

/// A registered backend: the tagged union the manager stores, dispatching
/// the capability interface over the concrete implementations.
#[derive(Debug)]
pub enum ProviderSlot {
    Aws(AwsCloudHsmProvider),
    Azure(AzureKeyVaultProvider),
    Pkcs11(Pkcs11Provider),
}

impl ProviderSlot {
    /// The simulation state of whichever backend this slot holds.
    pub open spec fn model(&self) -> ProviderCore {
        match self {
            ProviderSlot::Aws(p) => p.model(),
            ProviderSlot::Azure(p) => p.model(),
            ProviderSlot::Pkcs11(p) => p.model(),
        }
    }

    /// The slot's tag agrees with the backend it holds.
    pub open spec fn wf(&self) -> bool {
        &&& self.model().wf()
        &&& match self {
            ProviderSlot::Aws(p) => p.model().provider_type == HsmProviderType::AwsCloudHsm,
            ProviderSlot::Azure(p) => p.model().provider_type == HsmProviderType::AzureKeyVault,
            ProviderSlot::Pkcs11(p) => p.model().provider_type == HsmProviderType::Pkcs11Generic,
        }
    }

    /// The backend identifier this slot is registered under.
    pub fn provider_type(&self) -> (r: HsmProviderType)
        ensures
            r == self.model().provider_type,
    {
        match self {
            ProviderSlot::Aws(p) => p.state.provider_type,
            ProviderSlot::Azure(p) => p.state.provider_type,
            ProviderSlot::Pkcs11(p) => p.state.provider_type,
        }
    }

    /// Dispatches key generation to the held backend.
    pub fn generate_pqc_key(&mut self, algorithm: PqcAlgorithm, key_id: &str, now_ms: u64) -> (r:
        Result<HsmKeyHandle, HsmError>)
        requires
            old(self).wf(),
            now_ms <= MAX_TIMESTAMP_MS,
        ensures
            final(self).wf(),
            gen_post(old(self).model(), final(self).model(), algorithm, key_id@, now_ms, r),
    {
        match self {
            ProviderSlot::Aws(p) => p.generate_pqc_key(algorithm, key_id, now_ms),
            ProviderSlot::Azure(p) => p.generate_pqc_key(algorithm, key_id, now_ms),
            ProviderSlot::Pkcs11(p) => p.generate_pqc_key(algorithm, key_id, now_ms),
        }
    }

    /// Dispatches key retrieval to the held backend.
    pub fn get_key(&self, key_id: &str) -> (r: Result<HsmKeyHandle, HsmError>)
        ensures
            r is Ok <==> find_key(self.model().keys@, key_id@) is Some,
            r matches Ok(h) ==> (find_key(self.model().keys@, key_id@) matches Some(s)
                && handle_like(h, s)),
            r is Err ==> r == Err::<HsmKeyHandle, HsmError>(HsmError::KeyNotFound),
    {
        match self {
            ProviderSlot::Aws(p) => p.get_key(key_id),
            ProviderSlot::Azure(p) => p.get_key(key_id),
            ProviderSlot::Pkcs11(p) => p.get_key(key_id),
        }
    }

    /// Dispatches a cryptographic operation to the held backend.
    pub fn crypto_operation(&mut self, operation: &CryptoOperation) -> (r: Result<
        CryptoResult,
        HsmError,
    >)
        requires
            old(self).wf(),
        ensures
            final(self).wf(),
            exists|prefix: Seq<char>|
                prefix.len() <= 100 && crypto_post(old(self).model(), final(self).model(),
                operation.operation_type, prefix, r),
    {
        match self {
            ProviderSlot::Aws(p) => p.crypto_operation(operation),
            ProviderSlot::Azure(p) => p.crypto_operation(operation),
            ProviderSlot::Pkcs11(p) => p.crypto_operation(operation),
        }
    }

    /// Dispatches deletion to the held backend.
    pub fn delete_key(&mut self, key_id: &str) -> (r: Result<(), HsmError>)
        requires
            old(self).wf(),
        ensures
            final(self).wf(),
            r is Ok,
            final(self).model().provider_type == old(self).model().provider_type,
            find_key_index(old(self).model().keys@, key_id@) matches Some(i) ==> final(self).model().keys@ == old(self).model().keys@.remove(i),
            find_key_index(old(self).model().keys@, key_id@) is None ==> final(self).model().keys@
                == old(self).model().keys@,
    {
        match self {
            ProviderSlot::Aws(p) => p.delete_key(key_id),
            ProviderSlot::Azure(p) => p.delete_key(key_id),
            ProviderSlot::Pkcs11(p) => p.delete_key(key_id),
        }
    }

    /// Dispatches key listing to the held backend.
    pub fn list_keys(&self) -> (r: Vec<HsmKeyInfo>)
        ensures
            r@.len() == self.model().keys@.len(),
    {
        match self {
            ProviderSlot::Aws(p) => p.list_keys(),
            ProviderSlot::Azure(p) => p.list_keys(),
            ProviderSlot::Pkcs11(p) => p.list_keys(),
        }
    }

    /// Dispatches the health probe to the held backend.
    pub fn health_check(&self, now_ms: u64) -> (r: HsmHealthStatus)
        ensures
            r.provider == self.model().provider_type,
            r.status == HealthStatus::Healthy,
            r.last_check == now_ms,
    {
        match self {
            ProviderSlot::Aws(p) => p.health_check(now_ms),
            ProviderSlot::Azure(p) => p.health_check(now_ms),
            ProviderSlot::Pkcs11(p) => p.health_check(now_ms),
        }
    }

    /// Dispatches the counter read to the held backend.
    pub fn get_metrics(&self) -> (r: HsmMetrics)
        ensures
            r == self.model().metrics,
    {
        match self {
            ProviderSlot::Aws(p) => p.get_metrics(),
            ProviderSlot::Azure(p) => p.get_metrics(),
            ProviderSlot::Pkcs11(p) => p.get_metrics(),
        }
    }
}

} // verus!
