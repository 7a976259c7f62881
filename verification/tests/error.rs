use s3_manager::error::{CommandError, ConnectionFault, DeleteFailure, ErrorKind};
use s3_manager::utils::text::prefixed;

#[test]
fn every_failure_has_its_text() {
    let t = |s: &str| s.to_string();
    let cases = vec![
        (CommandError::EmptyBucketName, "Bucket name cannot be empty"),
        (CommandError::ClientConstruction(t("x")), "x"),
        (CommandError::ConnectionSetup(t("x")), "Failed to create S3 client: x"),
        (
            CommandError::Connection(ConnectionFault::Credentials),
            "No valid credentials found. Please check your Access Key ID and Secret Access Key.",
        ),
        (
            CommandError::Connection(ConnectionFault::Endpoint),
            "Invalid endpoint URL. Please check your endpoint configuration.",
        ),
        (
            CommandError::Connection(ConnectionFault::Region),
            "Invalid region. For R2, try using 'auto' or leave empty.",
        ),
        (
            CommandError::Connection(ConnectionFault::Service(t("x"))),
            "Service error: x. Please check your endpoint URL and credentials.",
        ),
        (CommandError::ListBuckets(t("x")), "Failed to list buckets: x"),
        (CommandError::ListObjects(t("x")), "Failed to list objects: x"),
        (CommandError::Upload(t("x")), "Upload failed: x"),
        (
            CommandError::PresigningConfig(t("x")),
            "Failed to create presigning config: x",
        ),
        (
            CommandError::PresignedUrl(t("x")),
            "Failed to generate presigned URL: x",
        ),
        (CommandError::SaveCancelled, "User cancelled file save"),
        (CommandError::InvalidPath, "无效的文件路径"),
        (CommandError::MissingFileName, "无法获取文件名"),
        (CommandError::ReadFile(t("x")), "Failed to read file: x"),
        (CommandError::WriteFile(t("x")), "Failed to write file: x"),
        (CommandError::Fetch(t("x")), "Failed to download file: x"),
        (
            CommandError::HttpStatus(t("500 Internal Server Error")),
            "Download failed with status: 500 Internal Server Error",
        ),
        (
            CommandError::ResponseBody(t("x")),
            "Failed to read response content: x",
        ),
    ];
    for (error, expected) in cases {
        assert_eq!(error.message(), expected);
    }
}

#[test]
fn partial_deletion_tells_count_and_failures() {
    let error = CommandError::PartialDelete {
        deleted: 12,
        failures: vec![
            DeleteFailure {
                key: "a".to_string(),
                reason: "denied".to_string(),
            },
            DeleteFailure {
                key: "b/c".to_string(),
                reason: "gone".to_string(),
            },
        ],
    };
    assert_eq!(
        error.message(),
        "Deleted 12 objects, but encountered errors: Failed to delete a: denied, \
         Failed to delete b/c: gone"
    );
    let failure = DeleteFailure {
        key: "k".to_string(),
        reason: "why".to_string(),
    };
    assert_eq!(failure.line(), "Failed to delete k: why");
}

#[test]
fn every_failure_has_its_family() {
    let t = |s: &str| s.to_string();
    assert_eq!(CommandError::EmptyBucketName.kind(), ErrorKind::Validation);
    assert_eq!(
        CommandError::PresigningConfig(t("x")).kind(),
        ErrorKind::Validation
    );
    assert_eq!(
        CommandError::ClientConstruction(t("x")).kind(),
        ErrorKind::Construction
    );
    assert_eq!(
        CommandError::ConnectionSetup(t("x")).kind(),
        ErrorKind::Construction
    );
    assert_eq!(
        CommandError::Connection(ConnectionFault::Region).kind(),
        ErrorKind::Connectivity
    );
    assert_eq!(CommandError::ListBuckets(t("x")).kind(), ErrorKind::Connectivity);
    assert_eq!(CommandError::ListObjects(t("x")).kind(), ErrorKind::Connectivity);
    assert_eq!(CommandError::Upload(t("x")).kind(), ErrorKind::Connectivity);
    assert_eq!(CommandError::PresignedUrl(t("x")).kind(), ErrorKind::Connectivity);
    assert_eq!(
        CommandError::PartialDelete {
            deleted: 0,
            failures: vec![]
        }
        .kind(),
        ErrorKind::PartialFailure
    );
    assert_eq!(CommandError::SaveCancelled.kind(), ErrorKind::UserCancellation);
    assert_eq!(CommandError::InvalidPath.kind(), ErrorKind::LocalIo);
    assert_eq!(CommandError::MissingFileName.kind(), ErrorKind::LocalIo);
    assert_eq!(CommandError::ReadFile(t("x")).kind(), ErrorKind::LocalIo);
    assert_eq!(CommandError::WriteFile(t("x")).kind(), ErrorKind::LocalIo);
    assert_eq!(CommandError::Fetch(t("x")).kind(), ErrorKind::HttpTransfer);
    assert_eq!(CommandError::HttpStatus(t("x")).kind(), ErrorKind::HttpTransfer);
    assert_eq!(CommandError::ResponseBody(t("x")).kind(), ErrorKind::HttpTransfer);
}

#[test]
fn prefixed_puts_the_prefix_first() {
    assert_eq!(prefixed("a: ", "b"), "a: b");
    assert_eq!(prefixed("", ""), "");
    assert_eq!(prefixed("✓ ", "好"), "✓ 好");
}
