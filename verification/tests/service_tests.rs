//! Tests for the service-side pieces: configuration validation, API-key
//! checks, file identification, rate-limit bookkeeping, and the
//! waitlist address check.

use elicit::config::Config;
use elicit::errors::AppError;
use elicit::limits::{get_rate_limit_metrics, RateLimitState};
use elicit::models::ProcessedFile;
use elicit::waitlist::is_valid_email;

fn base_config() -> Config {
    Config {
        server_host: "0.0.0.0".to_string(),
        server_port: 8080,
        max_file_size_mb: 10,
        max_concurrent_requests: 100,
        request_timeout_seconds: 30,
        worker_threads: 4,
    }
}

#[test]
fn config_accepts_positive_settings() {
    assert!(base_config().validate().is_ok());
}

#[test]
fn config_rejects_each_zero_setting() {
    let mut c = base_config();
    c.server_port = 0;
    match c.validate() {
        Err(AppError::ConfigError { message }) => {
            assert_eq!(message, "SERVER_PORT must be greater than 0");
        }
        other => panic!("expected ConfigError, got {:?}", other),
    }

    let mut c = base_config();
    c.max_file_size_mb = 0;
    match c.validate() {
        Err(AppError::ConfigError { message }) => {
            assert_eq!(message, "MAX_FILE_SIZE_MB must be greater than 0");
        }
        other => panic!("expected ConfigError, got {:?}", other),
    }

    let mut c = base_config();
    c.max_concurrent_requests = 0;
    match c.validate() {
        Err(AppError::ConfigError { message }) => {
            assert_eq!(message, "MAX_CONCURRENT_REQUESTS must be greater than 0");
        }
        other => panic!("expected ConfigError, got {:?}", other),
    }

    let mut c = base_config();
    c.request_timeout_seconds = 0;
    match c.validate() {
        Err(AppError::ConfigError { message }) => {
            assert_eq!(message, "REQUEST_TIMEOUT_SECONDS must be greater than 0");
        }
        other => panic!("expected ConfigError, got {:?}", other),
    }

    let mut c = base_config();
    c.worker_threads = 0;
    match c.validate() {
        Err(AppError::ConfigError { message }) => {
            assert_eq!(message, "WORKER_THREADS must be greater than 0");
        }
        other => panic!("expected ConfigError, got {:?}", other),
    }
}

#[test]
fn api_key_check_matches_configured_keys() {
    let keys = vec!["valid-key-123".to_string(), "another-key".to_string()];
    assert!(Config::validate_api_key(&keys, "valid-key-123"));
    assert!(Config::validate_api_key(&keys, "another-key"));
    assert!(!Config::validate_api_key(&keys, "invalid-key"));
    assert!(!Config::validate_api_key(&vec![], "valid-key-123"));
}

#[test]
fn is_pdf_by_mime_type() {
    let file = ProcessedFile::new("anything.bin".to_string(), vec![1, 2, 3])
        .with_mime_type("application/pdf".to_string());
    assert!(file.is_pdf());
    // Any one match suffices: a non-PDF MIME type does not veto a
    // matching name or signature.
    let file = ProcessedFile::new("doc.pdf".to_string(), vec![1, 2, 3])
        .with_mime_type("text/plain".to_string());
    assert!(file.is_pdf());
    let file = ProcessedFile::new("upload".to_string(), b"%PDF-1.7".to_vec())
        .with_mime_type("text/plain".to_string());
    assert!(file.is_pdf());
    // Nothing matches: not a PDF.
    let file = ProcessedFile::new("notes.txt".to_string(), vec![1, 2, 3])
        .with_mime_type("text/plain".to_string());
    assert!(!file.is_pdf());
}

#[test]
fn is_pdf_by_filename_case_insensitive() {
    let file = ProcessedFile::new("REPORT.PDF".to_string(), vec![1, 2, 3]);
    assert!(file.is_pdf());
    let file = ProcessedFile::new("report.txt".to_string(), vec![1, 2, 3]);
    assert!(!file.is_pdf());
}

#[test]
fn is_pdf_by_content_signature() {
    let file = ProcessedFile::new("upload".to_string(), b"%PDF-1.7 ...".to_vec());
    assert!(file.is_pdf());
    let file = ProcessedFile::new("upload".to_string(), b"GIF89a".to_vec());
    assert!(!file.is_pdf());
}

#[test]
fn processed_file_records_size() {
    let file = ProcessedFile::new("a.pdf".to_string(), vec![0u8; 42]);
    assert_eq!(file.size, 42);
    assert_eq!(file.mime_type, None);
}

#[test]
fn rate_limiter_counts_and_releases() {
    let mut state = RateLimitState::new(2);
    assert!(state.try_acquire());
    assert!(state.try_acquire());
    assert!(!state.try_acquire());
    assert_eq!(get_rate_limit_metrics(&state), (3, 1, 0));
    state.release();
    assert!(state.try_acquire());
    assert_eq!(get_rate_limit_metrics(&state), (4, 1, 0));
}

#[test]
fn email_validation_cases() {
    assert!(is_valid_email("user@example.com"));
    assert!(!is_valid_email("no-at-sign.com"));
    assert!(!is_valid_email("nodot@com"));
    assert!(!is_valid_email("a@b.c"));
    assert!(is_valid_email("ab@c.d"));
}
