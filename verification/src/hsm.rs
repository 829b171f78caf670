//! Shared data model of the HSM orchestration layer: algorithm identifiers,
//! key handles, operation requests and results, and the error taxonomy.

use vstd::prelude::*;

pub mod audit;
pub mod config;
pub mod manager;
pub mod policy;
pub mod provider;
pub mod metrics;
pub mod pool;

verus! {

/// Supported post-quantum algorithm identifiers, used as routing keys.
#[derive(Clone, Copy, Debug, PartialEq, Eq, Structural)]
pub enum PqcAlgorithm {
    /// Kyber-1024 key encapsulation.
    Kyber1024,
    /// Dilithium-3 digital signatures.
    Dilithium3,
    /// SPHINCS+-SHA256-128s hash-based signatures.
    SphincsPlusSha256128s,
    /// Hybrid classical RSA + Kyber.
    HybridRsaKyber,
    /// Hybrid classical ECDSA + Dilithium.
    HybridEcdsaDilithium,
}

/// Backend identifiers for the registered providers.
#[derive(Clone, Copy, Debug, PartialEq, Eq, Structural)]
pub enum HsmProviderType {
    AwsCloudHsm,
    AzureKeyVault,
    Pkcs11Generic,
    Pkcs11Thales,
    Pkcs11Utimaco,
    Pkcs11SafeNet,
    SoftwareOnly,
}

/// Error taxonomy of the orchestration layer.  A cryptographic mismatch is
/// not an error: it surfaces as `CryptoResult.success == false`.
#[derive(Clone, Copy, Debug, PartialEq, Eq, Structural)]
pub enum HsmError {
    /// A backend is enabled but misses required credentials or endpoints.
    ConfigurationError,
    /// The requested or ranked backend is not registered.
    ProviderUnavailable,
    /// No registered provider holds the requested key.
    KeyNotFound,
    /// The backend's connection pool is at capacity.
    ResourceExhausted,
    /// The per-call timeout elapsed before the backend completed.
    OperationTimeout,
    /// The `(algorithm, backend)` pair is not supported.
    UnsupportedAlgorithm,
}

/// Capability flags and allow-lists attached to a key at creation.
#[derive(Clone, Debug)]
pub struct KeyUsagePolicy {
    pub can_encrypt: bool,
    pub can_decrypt: bool,
    pub can_sign: bool,
    pub can_verify: bool,
    pub can_derive: bool,
    pub can_export: bool,
    pub max_uses: Option<u64>,
    pub allowed_users: Vec<String>,
    pub allowed_applications: Vec<String>,
}

impl Default for KeyUsagePolicy {
    /// The default policy permits the four basic operations and wildcards
    /// the user and application allow-lists.
    fn default() -> (r: Self)
        ensures
            r.can_encrypt && r.can_decrypt && r.can_sign && r.can_verify,
            !r.can_derive && !r.can_export,
            r.max_uses is None,
            r.allowed_users@.len() == 1 && r.allowed_users@[0]@ == "*"@,
            r.allowed_applications@.len() == 1 && r.allowed_applications@[0]@ == "*"@,
    {
        let mut users: Vec<String> = Vec::new();
        users.push("*".to_owned());
        let mut applications: Vec<String> = Vec::new();
        applications.push("*".to_owned());
        KeyUsagePolicy {
            can_encrypt: true,
            can_decrypt: true,
            can_sign: true,
            can_verify: true,
            can_derive: false,
            can_export: false,
            max_uses: None,
            allowed_users: users,
            allowed_applications: applications,
        }
    }
}

/// Handle to a key held by a backend; created once by a successful
/// key-generation call and never mutated afterwards.
#[derive(Clone, Debug)]
pub struct HsmKeyHandle {
    pub key_id: String,
    pub algorithm: PqcAlgorithm,
    pub provider: HsmProviderType,
    /// Unix milliseconds of creation.
    pub created_at: u64,
    /// Unix milliseconds of expiry; absent or strictly greater than `created_at`.
    pub expires_at: Option<u64>,
    pub key_size_bits: u32,
    pub usage_policy: KeyUsagePolicy,
    pub hardware_backed: bool,
    pub fips_compliant: bool,
}

impl HsmKeyHandle {
    /// Structural invariant of a handle: expiry, when present, lies strictly
    /// after creation.
    pub open spec fn wf(&self) -> bool {
        match self.expires_at {
            Some(e) => self.created_at < e,
            None => true,
        }
    }
}

/// Caller-supplied identity and audit context; the core never originates
/// user, application or session identifiers.
#[derive(Clone, Debug)]
pub struct OperationContext {
    pub user_id: String,
    pub application_id: String,
    pub session_id: String,
    /// Unix milliseconds at which the caller issued the operation.
    pub timestamp: u64,
    pub audit_required: bool,
}

/// Kinds of cryptographic operations a backend can perform.
#[derive(Clone, Copy, Debug, PartialEq, Eq, Structural)]
pub enum CryptoOperationType {
    Encrypt,
    Decrypt,
    Sign,
    Verify,
    KeyDerive,
    KeyWrap,
    KeyUnwrap,
}

/// Optional algorithm parameters of a cryptographic operation.
#[derive(Clone, Debug)]
pub struct AlgorithmParams {
    pub mode: String,
    pub padding: Option<String>,
    pub salt: Option<Vec<u8>>,
    pub iv: Option<Vec<u8>>,
}

/// A cryptographic operation request.
#[derive(Clone, Debug)]
pub struct CryptoOperation {
    pub operation_type: CryptoOperationType,
    pub key_id: String,
    pub data: Vec<u8>,
    pub algorithm_params: Option<AlgorithmParams>,
    pub context: OperationContext,
}

/// Performance counters attached to a single completed operation.
#[derive(Clone, Copy, Debug)]
pub struct HsmOperationMetrics {
    pub latency_ms: u64,
    pub memory_usage_kb: u64,
    pub network_latency_ms: Option<u64>,
}

/// Outcome of a cryptographic operation.  `success == false` means the
/// operation completed but the data did not match (for example a failed
/// verification); it is distinct from a returned error.
#[derive(Clone, Debug)]
pub struct CryptoResult {
    pub data: Vec<u8>,
    pub operation_id: String,
    pub duration_ms: u64,
    pub success: bool,
    pub error_code: Option<String>,
    pub hsm_metrics: HsmOperationMetrics,
}

/// Lifecycle states of a stored key.
#[derive(Clone, Copy, Debug, PartialEq, Eq, Structural)]
pub enum KeyStatus {
    Active,
    Inactive,
    Expired,
    Revoked,
    PendingDeletion,
}

/// Summary of one stored key, as returned by a listing call.
#[derive(Clone, Debug)]
pub struct HsmKeyInfo {
    pub key_id: String,
    pub algorithm: PqcAlgorithm,
    pub created_at: u64,
    pub last_used: Option<u64>,
    pub usage_count: u64,
    pub size_bits: u32,
    pub status: KeyStatus,
}

/// Coarse health classification of a backend.
#[derive(Clone, Copy, Debug, PartialEq, Eq, Structural)]
pub enum HealthStatus {
    Healthy,
    Degraded,
    Unhealthy,
    Unreachable,
}

/// Health report of one backend.
#[derive(Clone, Debug)]
pub struct HsmHealthStatus {
    pub provider: HsmProviderType,
    pub status: HealthStatus,
    pub response_time_ms: u64,
    pub last_check: u64,
    pub available_slots: Option<u32>,
    pub firmware_version: Option<String>,
    pub error_details: Option<String>,
}

/// The three base algorithms every backend implements; the hybrid variants
/// are supported by no backend and fail with `UnsupportedAlgorithm`.
pub open spec fn algorithm_is_base(a: PqcAlgorithm) -> bool {
    a == PqcAlgorithm::Kyber1024 || a == PqcAlgorithm::Dilithium3
        || a == PqcAlgorithm::SphincsPlusSha256128s
}

/// Key size in bits reported for each base algorithm.
pub open spec fn algorithm_key_size_bits(a: PqcAlgorithm) -> u32 {
    match a {
        PqcAlgorithm::Kyber1024 => 1024,
        PqcAlgorithm::Dilithium3 => 2592,
        PqcAlgorithm::SphincsPlusSha256128s => 128,
        PqcAlgorithm::HybridRsaKyber => 0,
        PqcAlgorithm::HybridEcdsaDilithium => 0,
    }
}

/// Signature-family algorithms get a signing-only usage policy.
pub open spec fn algorithm_is_signature(a: PqcAlgorithm) -> bool {
    a == PqcAlgorithm::Dilithium3 || a == PqcAlgorithm::SphincsPlusSha256128s
        || a == PqcAlgorithm::HybridEcdsaDilithium
}

/// Executable twin of `algorithm_key_size_bits`.
pub fn key_size_bits_for(a: PqcAlgorithm) -> (r: u32)
    ensures
        r == algorithm_key_size_bits(a),
{
    match a {
        PqcAlgorithm::Kyber1024 => 1024,
        PqcAlgorithm::Dilithium3 => 2592,
        PqcAlgorithm::SphincsPlusSha256128s => 128,
        PqcAlgorithm::HybridRsaKyber => 0,
        PqcAlgorithm::HybridEcdsaDilithium => 0,
    }
}

/// The usage policy attached at creation: signature-family keys may only
/// sign and verify, every other key gets the default policy.
pub fn usage_policy_for(a: PqcAlgorithm) -> (r: KeyUsagePolicy)
    ensures
        algorithm_is_signature(a) ==> !r.can_encrypt && !r.can_decrypt && r.can_sign
            && r.can_verify,
        !algorithm_is_signature(a) ==> r.can_encrypt && r.can_decrypt && r.can_sign
            && r.can_verify,
        !r.can_derive && !r.can_export,
        r.max_uses is None,
{
    let mut policy = KeyUsagePolicy::default();
    if matches!(a, PqcAlgorithm::Dilithium3 | PqcAlgorithm::SphincsPlusSha256128s
        | PqcAlgorithm::HybridEcdsaDilithium) {
        policy.can_encrypt = false;
        policy.can_decrypt = false;
    }
    policy
}

} // verus!
