use pqc_kyber::adds::tls::TlsState;
use pqc_kyber::analysis::comparative::FinancialRecommendation;
use pqc_kyber::analysis::comparative::RiskLevel;
use pqc_kyber::analysis::comparative::SecurityLevel as AnalysisSecurityLevel;
use pqc_kyber::config::get_current_user;
use pqc_kyber::config::initialize_config;
use pqc_kyber::config::SystemConfig;
use pqc_kyber::data_generator::TransactionDataGenerator;
use pqc_kyber::kms::KeyGenerator;
use pqc_kyber::kms::SecurityLevel;
use pqc_kyber::utils::time_utils::get_current_timestamp;
use pqc_kyber::utils::time_utils::get_current_timestamp_nanos;

#[test]
fn test_generate_filename() {
    let generator = TransactionDataGenerator::new("out", "2025-06-01 07:19:41", "test_user");
    assert_eq!(generator.generate_filename(), "transactions_20250601.csv");
}

#[test]
fn test_generate_filename_edge_cases() {
    let no_time = TransactionDataGenerator::new("out", "2024-12-31", "u");
    assert_eq!(no_time.generate_filename(), "transactions_20241231.csv");

    let leading_space = TransactionDataGenerator::new("out", "  2024-01-02 x", "u");
    assert_eq!(leading_space.generate_filename(), "transactions_20240102.csv");

    let empty = TransactionDataGenerator::new("out", "", "u");
    assert_eq!(empty.generate_filename(), "transactions_.csv");
}

#[test]
fn test_generator_stores_stamp() {
    let generator = TransactionDataGenerator::new("dir", "2025-06-01 07:19:41", "test_user");
    assert_eq!(generator.output_dir, "dir");
    assert_eq!(generator.current_user, "test_user");
}

#[test]
fn test_config_user_management() {
    let mut config = SystemConfig::new();
    assert_eq!(get_current_user(&config), "olafcio42");

    initialize_config(&mut config, Some("test_user".to_string()));
    assert_eq!(get_current_user(&config), "test_user");

    initialize_config(&mut config, None);
    assert_eq!(get_current_user(&config), "test_user");
}

#[test]
fn test_key_generator_levels() {
    let generator = KeyGenerator::new(SecurityLevel::Kyber1024);
    assert_eq!(generator.security_level, SecurityLevel::Kyber1024);
    assert_ne!(SecurityLevel::Kyber768, SecurityLevel::Kyber1024);
}

#[test]
fn test_timestamps_monotone_enough() {
    let seconds = get_current_timestamp();
    let nanos = get_current_timestamp_nanos();
    assert!(seconds > 1_500_000_000);
    assert!(nanos / 1_000_000_000 >= seconds as u128 - 2);
}

#[test]
fn test_tls_state_values() {
    assert_ne!(TlsState::Initial, TlsState::Closed);
    assert_eq!(TlsState::Connected, TlsState::Connected);
}

#[test]
fn test_recommendation_fields() {
    let recommendation = FinancialRecommendation {
        scenario: "High-value transfers".to_string(),
        recommended_algorithm: "Kyber-1024".to_string(),
        justification: "Post-quantum confidentiality".to_string(),
        risk_level: RiskLevel::Low,
    };
    assert_eq!(recommendation.risk_level, RiskLevel::Low);
    assert_ne!(
        AnalysisSecurityLevel::Classical128,
        AnalysisSecurityLevel::PostQuantum256
    );
}
