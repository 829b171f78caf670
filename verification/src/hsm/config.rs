//! Configuration surface consumed by the orchestration layer: per-backend
//! enable flags and credentials, per-backend pool sizes, the per-call
//! timeout, and a declared but deliberately unconsulted retry bound.

use vstd::prelude::*;

verus! {

/// Connection settings of the cloud HSM backend.
#[derive(Clone, Debug)]
pub struct AwsCloudHsmConfig {
    pub cluster_id: String,
    pub region: String,
    pub access_key_id: String,
    pub secret_access_key: String,
    pub session_token: Option<String>,
    pub endpoint_url: Option<String>,
    pub timeout_seconds: u64,
    pub max_retries: u32,
    pub enable_logging: bool,
    pub pkcs11_library_path: String,
    pub hsm_user_name: String,
    pub hsm_user_password: String,
    pub connection_pool_size: u32,
}

/// Connection settings of the managed key-vault backend.
#[derive(Clone, Debug)]
pub struct AzureKeyVaultConfig {
    pub vault_url: String,
    pub tenant_id: String,
    pub client_id: String,
    pub client_secret: String,
    pub subscription_id: String,
    pub resource_group: String,
    pub managed_hsm_name: Option<String>,
    pub timeout_seconds: u64,
    pub max_retries: u32,
    pub enable_logging: bool,
    pub api_version: String,
    pub connection_pool_size: u32,
    pub enable_managed_hsm: bool,
}

/// Connection settings of the generic hardware-token backend.
#[derive(Clone, Debug)]
pub struct Pkcs11Config {
    pub library_path: String,
    pub slot_id: u64,
    pub timeout_seconds: u64,
    pub max_retries: u32,
    pub connection_pool_size: u32,
}

/// Top-level configuration of the manager.
///
/// `max_retries` is part of the declared surface but is never consulted:
/// exactly one attempt is made per call, and retry policy is a caller-level
/// concern.
#[derive(Clone, Debug)]
pub struct HsmConfig {
    pub aws_enabled: bool,
    pub azure_enabled: bool,
    pub pkcs11_enabled: bool,
    pub aws_config: AwsCloudHsmConfig,
    pub azure_config: AzureKeyVaultConfig,
    pub pkcs11_config: Pkcs11Config,
    /// Per-call timeout applied to every backend invocation.
    pub timeout_seconds: u64,
    pub max_retries: u32,
}

impl HsmConfig {
    /// Every enabled backend carries the credentials it cannot run without;
    /// construction fails with `ConfigurationError` otherwise.
    pub open spec fn credentials_ok(&self) -> bool {
        &&& self.aws_enabled ==> self.aws_config.cluster_id@.len() > 0
        &&& self.azure_enabled ==> self.azure_config.vault_url@.len() > 0
            && self.azure_config.tenant_id@.len() > 0
        &&& self.pkcs11_enabled ==> self.pkcs11_config.library_path@.len() > 0
    }

    /// Executable credential check, used at manager construction.
    pub fn check_credentials(&self) -> (r: bool)
        ensures
            r == self.credentials_ok(),
    {
        let aws_ok = !self.aws_enabled || !self.aws_config.cluster_id.as_str().is_empty();
        let azure_ok = !self.azure_enabled || (!self.azure_config.vault_url.as_str().is_empty()
            && !self.azure_config.tenant_id.as_str().is_empty());
        let pkcs11_ok = !self.pkcs11_enabled
            || !self.pkcs11_config.library_path.as_str().is_empty();
        aws_ok && azure_ok && pkcs11_ok
    }

    /// A configuration with every backend enabled and placeholder
    /// credentials, for exercising the orchestration layer without real
    /// vendor endpoints.
    pub fn default_test_config() -> (r: Self)
        ensures
            r.aws_enabled && r.azure_enabled && r.pkcs11_enabled,
            r.credentials_ok(),
            r.timeout_seconds == 30,
            r.aws_config.connection_pool_size == 10,
            r.azure_config.connection_pool_size == 15,
            r.pkcs11_config.connection_pool_size == 8,
    {
        let aws_config = AwsCloudHsmConfig {
            cluster_id: "cluster-test".to_owned(),
            region: "us-east-1".to_owned(),
            access_key_id: "test-access-key".to_owned(),
            secret_access_key: "test-secret-key".to_owned(),
            session_token: None,
            endpoint_url: None,
            timeout_seconds: 30,
            max_retries: 3,
            enable_logging: false,
            pkcs11_library_path: "/opt/cloudhsm/lib/libcloudhsm_pkcs11.so".to_owned(),
            hsm_user_name: "test-user".to_owned(),
            hsm_user_password: "test-password".to_owned(),
            connection_pool_size: 10,
        };
        let azure_config = AzureKeyVaultConfig {
            vault_url: "https://test-vault.vault.azure.net".to_owned(),
            tenant_id: "test-tenant".to_owned(),
            client_id: "test-client".to_owned(),
            client_secret: "test-secret".to_owned(),
            subscription_id: "test-subscription".to_owned(),
            resource_group: "test-group".to_owned(),
            managed_hsm_name: None,
            timeout_seconds: 30,
            max_retries: 3,
            enable_logging: false,
            api_version: "7.4".to_owned(),
            connection_pool_size: 15,
            enable_managed_hsm: true,
        };
        let pkcs11_config = Pkcs11Config {
            library_path: "/usr/lib/softhsm/libsofthsm2.so".to_owned(),
            slot_id: 0,
            timeout_seconds: 30,
            max_retries: 3,
            connection_pool_size: 8,
        };
        proof {
            reveal_strlit("cluster-test");
            reveal_strlit("https://test-vault.vault.azure.net");
            reveal_strlit("test-tenant");
            reveal_strlit("/usr/lib/softhsm/libsofthsm2.so");
        }
        HsmConfig {
            aws_enabled: true,
            azure_enabled: true,
            pkcs11_enabled: true,
            aws_config,
            azure_config,
            pkcs11_config,
            timeout_seconds: 30,
            max_retries: 3,
        }
    }
}

} // verus!
