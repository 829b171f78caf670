use pqc_kyber::hsm::audit::AuditAction;
use pqc_kyber::hsm::audit::AuditOutcome;
use pqc_kyber::hsm::config::HsmConfig;
use pqc_kyber::hsm::manager::HsmManager;
use pqc_kyber::hsm::pool::HsmConnectionPool;
use pqc_kyber::hsm::provider::AwsCloudHsmProvider;
use pqc_kyber::hsm::provider::MS_PER_YEAR;
use pqc_kyber::hsm::CryptoOperation;
use pqc_kyber::hsm::CryptoOperationType;
use pqc_kyber::hsm::HealthStatus;
use pqc_kyber::hsm::HsmError;
use pqc_kyber::hsm::HsmProviderType;
use pqc_kyber::hsm::OperationContext;
use pqc_kyber::hsm::PqcAlgorithm;

fn test_context(timestamp: u64, audit_required: bool) -> OperationContext {
    OperationContext {
        user_id: "alice".to_string(),
        application_id: "payments".to_string(),
        session_id: "session-1".to_string(),
        timestamp,
        audit_required,
    }
}

fn config_with(aws: bool, azure: bool, pkcs11: bool) -> HsmConfig {
    let mut config = HsmConfig::default_test_config();
    config.aws_enabled = aws;
    config.azure_enabled = azure;
    config.pkcs11_enabled = pkcs11;
    config
}

#[test]
fn test_hsm_manager_creation() {
    let config = HsmConfig::default_test_config();
    let manager = HsmManager::new(config);
    assert!(manager.is_ok());
}

#[test]
fn test_algorithm_provider_selection() {
    let config = HsmConfig::default_test_config();
    let manager = HsmManager::new(config).unwrap();

    let kyber_provider = manager.select_optimal_provider(&PqcAlgorithm::Kyber1024);
    let dilithium_provider = manager.select_optimal_provider(&PqcAlgorithm::Dilithium3);

    assert!(
        kyber_provider == HsmProviderType::AwsCloudHsm
            || kyber_provider == HsmProviderType::Pkcs11Generic
    );
    assert_eq!(dilithium_provider, HsmProviderType::Pkcs11Generic);
}

#[test]
fn test_selection_cloud_hsm_only_kyber() {
    let manager = HsmManager::new(config_with(true, false, false)).unwrap();
    let resolved = manager.select_optimal_provider(&PqcAlgorithm::Kyber1024);
    assert_eq!(resolved, HsmProviderType::AwsCloudHsm);

    let mut manager = manager;
    let handle = manager
        .generate_pqc_key(PqcAlgorithm::Kyber1024, "kyber-key", None, &test_context(1_000, true))
        .expect("generation must succeed on the enabled cloud HSM");
    assert_eq!(handle.provider, HsmProviderType::AwsCloudHsm);
}

#[test]
fn test_selection_vault_and_token_signature() {
    let manager = HsmManager::new(config_with(false, true, true)).unwrap();
    let resolved = manager.select_optimal_provider(&PqcAlgorithm::Dilithium3);
    assert_eq!(resolved, HsmProviderType::Pkcs11Generic);
}

#[test]
fn test_selection_falls_back_deterministically() {
    let manager = HsmManager::new(config_with(false, false, false)).unwrap();
    let first = manager.select_optimal_provider(&PqcAlgorithm::Kyber1024);
    let second = manager.select_optimal_provider(&PqcAlgorithm::Kyber1024);
    assert_eq!(first, HsmProviderType::AzureKeyVault);
    assert_eq!(first, second);
}

#[test]
fn test_selection_stays_in_enabled_set() {
    let algorithms = [
        PqcAlgorithm::Kyber1024,
        PqcAlgorithm::Dilithium3,
        PqcAlgorithm::SphincsPlusSha256128s,
        PqcAlgorithm::HybridRsaKyber,
        PqcAlgorithm::HybridEcdsaDilithium,
    ];
    let configs = [
        (true, false, false),
        (false, true, false),
        (false, false, true),
        (true, true, false),
        (true, false, true),
        (false, true, true),
        (true, true, true),
    ];
    for (aws, azure, pkcs11) in configs {
        let manager = HsmManager::new(config_with(aws, azure, pkcs11)).unwrap();
        for algorithm in &algorithms {
            let resolved = manager.select_optimal_provider(algorithm);
            let enabled = match resolved {
                HsmProviderType::AwsCloudHsm => aws,
                HsmProviderType::AzureKeyVault => azure,
                HsmProviderType::Pkcs11Generic => pkcs11,
                _ => false,
            };
            assert!(enabled, "selection left the enabled set");
        }
    }
}

#[test]
fn test_connection_pool() {
    let mut pool = HsmConnectionPool::new(5);
    let conn1 = pool.get_connection(10).unwrap();
    let conn2 = pool.get_connection(11).unwrap();

    assert_ne!(conn1.id, conn2.id);

    pool.return_connection(conn1);
    pool.return_connection(conn2);
}

#[test]
fn test_pool_exhaustion_and_reuse() {
    let mut pool = HsmConnectionPool::new(2);
    let conn1 = pool.get_connection(1).unwrap();
    let conn2 = pool.get_connection(2).unwrap();
    let third = pool.get_connection(3);
    assert!(matches!(third, Err(HsmError::ResourceExhausted)));

    pool.return_connection(conn1);
    let retry = pool.get_connection(4);
    assert!(retry.is_ok());
    assert_eq!(retry.unwrap().id, 0);

    pool.return_connection(conn2);
}

#[test]
fn test_pool_accepts_up_to_capacity() {
    let mut pool = HsmConnectionPool::new(4);
    let mut held = Vec::new();
    for i in 0..4 {
        held.push(pool.get_connection(i).expect("below capacity must succeed"));
    }
    assert!(matches!(pool.get_connection(99), Err(HsmError::ResourceExhausted)));
    for conn in held {
        pool.return_connection(conn);
    }
    assert!(pool.get_connection(100).is_ok());
}

#[test]
fn test_generation_appends_one_audit_record() {
    let mut manager = HsmManager::new(HsmConfig::default_test_config()).unwrap();
    assert_eq!(manager.audit_len(), 0);

    manager
        .generate_pqc_key(PqcAlgorithm::Kyber1024, "k-1", None, &test_context(5_000, true))
        .unwrap();
    assert_eq!(manager.audit_len(), 1);

    let err = manager
        .generate_pqc_key(PqcAlgorithm::HybridRsaKyber, "k-2", None, &test_context(6_000, true))
        .expect_err("hybrid algorithms are unsupported by every backend");
    assert_eq!(err, HsmError::UnsupportedAlgorithm);
    assert_eq!(manager.audit_len(), 2);

    let record = manager.audit_trail.record_at(1);
    assert_eq!(record.action, AuditAction::KeyGeneration);
    assert_eq!(record.key_id, "k-2");
    assert_eq!(record.algorithm, PqcAlgorithm::HybridRsaKyber);
    assert_eq!(record.outcome, AuditOutcome::Failed);
    assert_eq!(record.user_id, "alice");
    assert_eq!(record.timestamp, 6_000);
}

#[test]
fn test_generated_handle_fields() {
    let mut manager = HsmManager::new(HsmConfig::default_test_config()).unwrap();
    let handle = manager
        .generate_pqc_key(
            PqcAlgorithm::Dilithium3,
            "sig-key",
            Some(HsmProviderType::AzureKeyVault),
            &test_context(42_000, true),
        )
        .unwrap();
    assert_eq!(handle.key_id, "sig-key");
    assert_eq!(handle.algorithm, PqcAlgorithm::Dilithium3);
    assert_eq!(handle.provider, HsmProviderType::AzureKeyVault);
    assert_eq!(handle.created_at, 42_000);
    assert_eq!(handle.expires_at, Some(42_000 + MS_PER_YEAR));
    assert_eq!(handle.key_size_bits, 2592);
    assert!(!handle.usage_policy.can_encrypt);
    assert!(!handle.usage_policy.can_decrypt);
    assert!(handle.usage_policy.can_sign);
    assert!(handle.usage_policy.can_verify);
    assert!(handle.hardware_backed);
    assert!(handle.fips_compliant);
}

#[test]
fn test_get_key_not_found() {
    let empty = HsmManager::new(config_with(false, false, false)).unwrap();
    assert!(matches!(empty.get_key("nonexistent"), Err(HsmError::KeyNotFound)));

    let mut populated = HsmManager::new(HsmConfig::default_test_config()).unwrap();
    for i in 0..3u64 {
        let key_id = format!("unrelated-{}", i);
        populated
            .generate_pqc_key(PqcAlgorithm::Kyber1024, &key_id, None, &test_context(i, true))
            .unwrap();
    }
    assert!(matches!(populated.get_key("nonexistent"), Err(HsmError::KeyNotFound)));
    assert!(populated.get_key("unrelated-1").is_ok());
}

#[test]
fn test_get_key_returns_stored_handle() {
    let mut manager = HsmManager::new(HsmConfig::default_test_config()).unwrap();
    manager
        .generate_pqc_key(PqcAlgorithm::Kyber1024, "lookup", None, &test_context(77, true))
        .unwrap();
    let handle = manager.get_key("lookup").unwrap();
    assert_eq!(handle.key_id, "lookup");
    assert_eq!(handle.algorithm, PqcAlgorithm::Kyber1024);
    assert_eq!(handle.created_at, 77);
}

#[test]
fn test_provider_unavailable() {
    let mut manager = HsmManager::new(config_with(false, false, false)).unwrap();
    let err = manager
        .generate_pqc_key(PqcAlgorithm::Kyber1024, "k", None, &test_context(1, true))
        .expect_err("no backend is registered");
    assert_eq!(err, HsmError::ProviderUnavailable);
    assert_eq!(manager.audit_len(), 1);
}

#[test]
fn test_resource_exhausted_generation() {
    let mut config = config_with(true, false, false);
    config.aws_config.connection_pool_size = 0;
    let mut manager = HsmManager::new(config).unwrap();
    let err = manager
        .generate_pqc_key(PqcAlgorithm::Kyber1024, "k", None, &test_context(1, true))
        .expect_err("a zero-sized pool cannot lend a connection");
    assert_eq!(err, HsmError::ResourceExhausted);
    assert_eq!(manager.audit_len(), 1);
}

#[test]
fn test_zero_timeout_forces_timeout() {
    let mut config = HsmConfig::default_test_config();
    config.timeout_seconds = 0;
    let mut manager = HsmManager::new(config).unwrap();

    let err = manager
        .generate_pqc_key(PqcAlgorithm::Kyber1024, "k", None, &test_context(1, true))
        .expect_err("a zero timeout times out every operation");
    assert_eq!(err, HsmError::OperationTimeout);

    let reports = manager.get_aggregated_metrics();
    assert_eq!(reports.len(), 1);
    assert_eq!(reports[0].provider, HsmProviderType::AwsCloudHsm);
    assert_eq!(reports[0].total_operations, 1);
    assert_eq!(reports[0].failed_operations, 1);
    assert_eq!(reports[0].successful_operations, 0);
}

#[test]
fn test_configuration_error() {
    let mut config = config_with(true, false, false);
    config.aws_config.cluster_id = String::new();
    let result = HsmManager::new(config);
    assert!(matches!(result, Err(HsmError::ConfigurationError)));
}

#[test]
fn test_metrics_idempotent_reads() {
    let mut manager = HsmManager::new(HsmConfig::default_test_config()).unwrap();
    manager
        .generate_pqc_key(PqcAlgorithm::Kyber1024, "a", None, &test_context(1, true))
        .unwrap();
    manager
        .generate_pqc_key(PqcAlgorithm::SphincsPlusSha256128s, "b", None, &test_context(2, true))
        .unwrap();

    let first = manager.get_aggregated_metrics();
    let second = manager.get_aggregated_metrics();
    assert_eq!(first, second);
}

#[test]
fn test_metrics_latency_aggregates() {
    let mut manager = HsmManager::new(config_with(true, false, false)).unwrap();
    manager
        .generate_pqc_key(PqcAlgorithm::Kyber1024, "a", None, &test_context(1, true))
        .unwrap();
    manager
        .generate_pqc_key(PqcAlgorithm::Dilithium3, "b", None, &test_context(2, true))
        .unwrap();

    let reports = manager.get_aggregated_metrics();
    assert_eq!(reports.len(), 1);
    let aws = &reports[0];
    assert_eq!(aws.total_operations, 2);
    assert_eq!(aws.successful_operations, 2);
    assert_eq!(aws.failed_operations, 0);
    assert_eq!(aws.total_latency_ms, 50 + 75);
    assert_eq!(aws.peak_latency_ms, 75);
    assert_eq!(aws.average_latency_ms, (50 + 75) / 2);
}

#[test]
fn test_crypto_operation_flow() {
    let mut manager = HsmManager::new(config_with(true, false, false)).unwrap();
    manager
        .generate_pqc_key(PqcAlgorithm::Kyber1024, "enc-key", None, &test_context(10, true))
        .unwrap();
    assert_eq!(manager.audit_len(), 1);

    let operation = CryptoOperation {
        operation_type: CryptoOperationType::Encrypt,
        key_id: "enc-key".to_string(),
        data: vec![1, 2, 3],
        algorithm_params: None,
        context: test_context(20, true),
    };
    let result = manager.crypto_operation(&operation).unwrap();
    assert!(result.success);
    assert_eq!(result.error_code, None);
    assert_eq!(result.duration_ms, 25);
    assert_eq!(result.data, vec![0u8; 32]);
    assert!(result.operation_id.starts_with("aws-op-"));
    assert_eq!(result.operation_id.len(), "aws-op-".len() + 36);
    assert_eq!(manager.audit_len(), 2);

    let record = manager.audit_trail.record_at(1);
    assert_eq!(record.action, AuditAction::CryptoOperation);
    assert_eq!(record.outcome, AuditOutcome::Succeeded);
}

#[test]
fn test_crypto_operation_audit_only_when_required() {
    let mut manager = HsmManager::new(config_with(true, false, false)).unwrap();
    manager
        .generate_pqc_key(PqcAlgorithm::Kyber1024, "quiet-key", None, &test_context(10, true))
        .unwrap();
    let before = manager.audit_len();

    let operation = CryptoOperation {
        operation_type: CryptoOperationType::Verify,
        key_id: "quiet-key".to_string(),
        data: vec![],
        algorithm_params: None,
        context: test_context(20, false),
    };
    manager.crypto_operation(&operation).unwrap();
    assert_eq!(manager.audit_len(), before);
}

#[test]
fn test_crypto_operation_missing_key() {
    let mut manager = HsmManager::new(config_with(true, false, false)).unwrap();
    let operation = CryptoOperation {
        operation_type: CryptoOperationType::Sign,
        key_id: "absent".to_string(),
        data: vec![],
        algorithm_params: None,
        context: test_context(20, true),
    };
    let err = manager.crypto_operation(&operation).expect_err("no such key");
    assert_eq!(err, HsmError::KeyNotFound);
}

#[test]
fn test_health_check_reports_every_backend() {
    let manager = HsmManager::new(HsmConfig::default_test_config()).unwrap();
    let statuses = manager.health_check(123);
    assert_eq!(statuses.len(), 3);
    for status in &statuses {
        assert_eq!(status.status, HealthStatus::Healthy);
        assert_eq!(status.last_check, 123);
    }
    assert_eq!(statuses[0].provider, HsmProviderType::AwsCloudHsm);
    assert_eq!(statuses[1].provider, HsmProviderType::AzureKeyVault);
    assert_eq!(statuses[2].provider, HsmProviderType::Pkcs11Generic);
}

#[test]
fn test_aws_cloudhsm_provider_creation() {
    let config = HsmConfig::default_test_config();
    let provider = AwsCloudHsmProvider::new(&config.aws_config, config.timeout_seconds);
    assert!(provider.is_ok());

    let mut missing = config.aws_config.clone();
    missing.cluster_id = String::new();
    assert!(matches!(
        AwsCloudHsmProvider::new(&missing, config.timeout_seconds),
        Err(HsmError::ConfigurationError)
    ));
}
