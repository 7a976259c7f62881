use s3_manager::commands::bucket::{classify_connection_error, list_buckets, test_s3_connection};
use s3_manager::error::{CommandError, ConnectionFault};
use s3_manager::models::s3::{BucketInfo, S3Config};
use s3_manager::services::storage::{BucketRecord, CallOutcome};

#[test]
fn test_bucket_info_creation() {
    let bucket = BucketInfo {
        name: "test-bucket".to_string(),
        creation_date: Some("2023-01-01T00:00:00Z".to_string()),
    };
    assert_eq!(bucket.name, "test-bucket");
    assert!(bucket.creation_date.is_some());
}

#[test]
fn test_r2_config_validation() {
    // Test typical R2 configuration
    let r2_config = S3Config {
        endpoint: "https://account-id.r2.cloudflarestorage.com".to_string(),
        region: "auto".to_string(),
        access_key_id: "test_key".to_string(),
        secret_access_key: "test_secret".to_string(),
        bucket: None,
        custom_path: None,
    };

    // Validate that endpoint is a valid URL
    assert!(r2_config.endpoint.starts_with("https://"));
    assert!(r2_config.endpoint.contains(".r2.cloudflarestorage.com"));
    assert_eq!(r2_config.region, "auto");
    assert!(!r2_config.access_key_id.is_empty());
    assert!(!r2_config.secret_access_key.is_empty());
}

#[test]
fn connection_errors_are_classified() {
    assert_eq!(
        classify_connection_error("no credentials in chain"),
        ConnectionFault::Credentials
    );
    assert_eq!(
        classify_connection_error("access denied"),
        ConnectionFault::Credentials
    );
    assert_eq!(
        classify_connection_error("bad endpoint given"),
        ConnectionFault::Endpoint
    );
    assert_eq!(
        classify_connection_error("unknown host"),
        ConnectionFault::Endpoint
    );
    assert_eq!(
        classify_connection_error("wrong region"),
        ConnectionFault::Region
    );
    assert_eq!(
        classify_connection_error("dispatch failure"),
        ConnectionFault::Service("dispatch failure".to_string())
    );
    assert_eq!(
        classify_connection_error(""),
        ConnectionFault::Service(String::new())
    );
}

#[test]
fn connection_error_classification_takes_the_first_match() {
    assert_eq!(
        classify_connection_error("region of the endpoint"),
        ConnectionFault::Endpoint
    );
    assert_eq!(
        classify_connection_error("host region access"),
        ConnectionFault::Credentials
    );
    assert_eq!(
        classify_connection_error("region, then credentials"),
        ConnectionFault::Credentials
    );
}

#[test]
fn connection_error_classification_is_case_sensitive() {
    assert_eq!(
        classify_connection_error("Credentials missing"),
        ConnectionFault::Service("Credentials missing".to_string())
    );
    assert_eq!(
        classify_connection_error("REGION"),
        ConnectionFault::Service("REGION".to_string())
    );
}

#[test]
fn connection_test_reports_each_fault() {
    let message = |text: &str| {
        test_s3_connection(CallOutcome::Failed(text.to_string()))
            .unwrap_err()
            .message()
    };
    assert_eq!(
        message("the credentials were refused"),
        "No valid credentials found. Please check your Access Key ID and Secret Access Key."
    );
    assert_eq!(
        message("the endpoint is wrong"),
        "Invalid endpoint URL. Please check your endpoint configuration."
    );
    assert_eq!(
        message("the region is wrong"),
        "Invalid region. For R2, try using 'auto' or leave empty."
    );
    assert_eq!(
        message("timeout"),
        "Service error: timeout. Please check your endpoint URL and credentials."
    );
}

#[test]
fn connection_test_counts_the_buckets() {
    assert_eq!(
        test_s3_connection(CallOutcome::Returned(3)),
        Ok("Connection successful! Found 3 buckets".to_string())
    );
    assert_eq!(
        test_s3_connection(CallOutcome::Returned(0)),
        Ok("Connection successful! Found 0 buckets".to_string())
    );
    assert_eq!(
        test_s3_connection(CallOutcome::Returned(120)),
        Ok("Connection successful! Found 120 buckets".to_string())
    );
}

#[test]
fn connection_test_without_a_client() {
    let error = test_s3_connection(CallOutcome::NoClient("bad url".to_string())).unwrap_err();
    assert_eq!(error, CommandError::ConnectionSetup("bad url".to_string()));
    assert_eq!(error.message(), "Failed to create S3 client: bad url");
}

#[test]
fn list_buckets_keeps_names_and_dates() {
    let records = vec![
        BucketRecord {
            name: Some("alpha".to_string()),
            creation_date: Some("2023-01-01T00:00:00Z".to_string()),
        },
        BucketRecord {
            name: Some("beta".to_string()),
            creation_date: None,
        },
    ];
    let buckets = list_buckets(CallOutcome::Returned(records)).unwrap();
    assert_eq!(buckets.len(), 2);
    assert_eq!(buckets[0].name, "alpha");
    assert_eq!(
        buckets[0].creation_date,
        Some("2023-01-01T00:00:00Z".to_string())
    );
    assert_eq!(buckets[1].name, "beta");
    assert_eq!(buckets[1].creation_date, None);
}

#[test]
fn list_buckets_fills_in_a_missing_name() {
    let records = vec![BucketRecord {
        name: None,
        creation_date: None,
    }];
    let buckets = list_buckets(CallOutcome::Returned(records)).unwrap();
    assert_eq!(buckets.len(), 1);
    assert_eq!(buckets[0].name, "");
    assert_eq!(buckets[0].creation_date, None);
    assert!(list_buckets(CallOutcome::Returned(vec![]))
        .unwrap()
        .is_empty());
}

#[test]
fn list_buckets_reports_failures() {
    let error = list_buckets(CallOutcome::Failed("access denied".to_string())).unwrap_err();
    assert_eq!(error.message(), "Failed to list buckets: access denied");
    let error = list_buckets(CallOutcome::NoClient("bad url".to_string())).unwrap_err();
    assert_eq!(error.message(), "bad url");
}
