use pqc_kyber::adds::validation::validate_keys;
use pqc_kyber::kyber::kem_roundtrip_matches;
use pqc_kyber::kyber::kyber_keypair;
use pqc_kyber::security::audit::run_security_audit;
use pqc_kyber::security::audit::test_memory_zeroization;
use pqc_kyber::security::audit::SecurityCheckStatus;
use pqc_kyber::security::penetration_tests::elapsed_ms;
use pqc_kyber::security::penetration_tests::PenetrationTestResult;
use pqc_kyber::security::penetration_tests::PenetrationTester;

#[test]
fn test_penetration_tester() {
    let mut tester = PenetrationTester::new();
    tester.run_all_tests();
    let report = tester.generate_report();
    assert!(!report.is_empty());
}

#[test]
fn test_penetration_results_recorded() {
    let mut tester = PenetrationTester::new();
    tester.run_all_tests();
    assert_eq!(tester.results.len(), 4);
    assert_eq!(tester.results[0].test_name, "Key Generation Strength Test");
    assert!(tester.results[0].success);
    assert_eq!(tester.results[2].test_name, "Memory Analysis Test");
    assert!(tester.results[2].success);
    assert_eq!(tester.results[3].test_name, "Protocol State Machine Test");
    assert!(tester.results[3].success);
    let report = tester.generate_report();
    assert!(report.starts_with("Penetration Testing Report\n"));
    assert!(report.contains("Side-Channel Timing Analysis"));
}

#[test]
fn test_memory_zeroization_succeeds() {
    assert!(test_memory_zeroization());
}

#[test]
fn test_security_audit() {
    let metrics = run_security_audit("2025-07-13 19:26:56".to_string(), "auditor".to_string());

    assert_eq!(
        metrics.critical_issues, 0,
        "Found {} critical security issues",
        metrics.critical_issues
    );
    assert_eq!(metrics.total_checks, 2);
    assert_eq!(metrics.passed_checks, 2);
    assert_eq!(
        metrics.memory_security_checks[0].status,
        SecurityCheckStatus::Passed
    );
    assert_eq!(
        metrics.protocol_security_checks[0].status,
        SecurityCheckStatus::Passed
    );
}

#[test]
fn test_kem_roundtrip_agrees() {
    assert!(kem_roundtrip_matches());
}

#[test]
fn test_key_validation() {
    let (public_key, secret_key) = kyber_keypair();
    let result = validate_keys(&public_key, &secret_key);
    assert!(matches!(result, Ok(true)));
}

#[test]
fn test_elapsed_ms_values() {
    assert_eq!(elapsed_ms(0, 2_000_000), 2);
    assert_eq!(elapsed_ms(1_000_000, 1_500_000), 0);
    assert_eq!(elapsed_ms(5, 3), 0);
}

#[test]
fn test_generate_report_exact_content() {
    let tester = PenetrationTester {
        results: vec![
            PenetrationTestResult {
                test_name: "Key Generation Strength Test".to_string(),
                success: true,
                execution_time_ms: 7,
                details: "ok".to_string(),
            },
            PenetrationTestResult {
                test_name: "Memory Analysis Test".to_string(),
                success: false,
                execution_time_ms: 3,
                details: String::new(),
            },
        ],
    };
    let report = tester.generate_report();
    assert_eq!(
        report,
        "Penetration Testing Report\n========================\n\n\
         Test: Key Generation Strength Test\nStatus: PASS\nDetails: ok\n\n\
         Test: Memory Analysis Test\nStatus: FAIL\nDetails: \n\n"
    );
}

#[test]
fn test_run_all_tests_names_in_order() {
    let mut tester = PenetrationTester::new();
    tester.run_all_tests();
    let report = tester.generate_report();
    assert!(report.contains("Test: Key Generation Strength Test\nStatus: PASS"));
    assert!(report.contains("Test: Memory Analysis Test\nStatus: PASS"));
    assert!(report.contains("Test: Protocol State Machine Test\nStatus: PASS"));
    assert_eq!(tester.results[1].test_name, "Side-Channel Timing Analysis");
}
