use s3_manager::commands::upload::{
    upload_bytes_call, upload_dialog_filters, upload_dialog_title, upload_file,
    upload_file_call, upload_file_from_bytes, upload_files_with_dialog, BatchStep, PickedFile,
};
use s3_manager::error::CommandError;
use s3_manager::models::s3::{S3Config, UploadFileBytesRequest, UploadFileRequest};
use s3_manager::services::storage::CallOutcome;

fn create_test_config() -> S3Config {
    S3Config {
        endpoint: "https://test.r2.cloudflarestorage.com".to_string(),
        region: "auto".to_string(),
        access_key_id: "test_access_key".to_string(),
        secret_access_key: "test_secret_key".to_string(),
        bucket: None,
        custom_path: None,
    }
}

fn file_request(content_type: Option<&str>) -> UploadFileRequest {
    UploadFileRequest {
        config: create_test_config(),
        bucket_name: "mybucket".to_string(),
        object_key: "a/b.txt".to_string(),
        file_path: "/tmp/b.txt".to_string(),
        content_type: content_type.map(|t| t.to_string()),
    }
}

fn picked(path: &str, name: &str) -> PickedFile {
    PickedFile::File {
        path: path.to_string(),
        name: name.to_string(),
    }
}

/// Runs a batch in which the upload of each file ends with the given
/// outcome, and returns the requests made and the result.
fn run_batch(
    prefix: Option<&str>,
    files: Vec<PickedFile>,
    outcomes: Vec<Result<String, CommandError>>,
) -> (Vec<UploadFileRequest>, Vec<String>) {
    let mut requests = Vec::new();
    let mut outcomes = outcomes.into_iter();
    let mut step = upload_files_with_dialog(
        create_test_config(),
        "mybucket".to_string(),
        prefix.map(|p| p.to_string()),
        Some(files),
    );
    loop {
        match step {
            BatchStep::Upload { run, request } => {
                requests.push(request);
                step = run.advance(outcomes.next().unwrap());
            }
            BatchStep::Done(lines) => {
                assert!(outcomes.next().is_none());
                return (requests, lines);
            }
        }
    }
}

#[test]
fn upload_file_reports_key_size_and_bucket() {
    let result = upload_file(&file_request(None), 1024, CallOutcome::Returned(()));
    assert_eq!(
        result,
        Ok("Successfully uploaded file 'a/b.txt' (1024 bytes) to mybucket".to_string())
    );
    let result = upload_file(&file_request(None), 0, CallOutcome::Returned(()));
    assert_eq!(
        result,
        Ok("Successfully uploaded file 'a/b.txt' (0 bytes) to mybucket".to_string())
    );
}

#[test]
fn upload_file_reports_failures() {
    let error = upload_file(
        &file_request(None),
        1024,
        CallOutcome::Failed("access denied".to_string()),
    )
    .unwrap_err();
    assert_eq!(error.message(), "Upload failed: access denied");
    let error = upload_file(
        &file_request(None),
        1024,
        CallOutcome::NoClient("bad url".to_string()),
    )
    .unwrap_err();
    assert_eq!(error.message(), "bad url");
}

#[test]
fn upload_file_call_sends_the_whole_content() {
    let upload = upload_file_call(&file_request(Some("text/plain")), Ok(vec![1, 2, 3])).unwrap();
    assert_eq!(upload.call.bucket, "mybucket");
    assert_eq!(upload.call.key, "a/b.txt");
    assert_eq!(upload.call.body, vec![1, 2, 3]);
    assert_eq!(upload.call.content_type, Some("text/plain".to_string()));
    assert_eq!(upload.size, 3);

    let upload = upload_file_call(&file_request(None), Ok(vec![])).unwrap();
    assert_eq!(upload.call.body, Vec::<u8>::new());
    assert_eq!(upload.call.content_type, None);
    assert_eq!(upload.size, 0);

    let upload = upload_file_call(&file_request(None), Ok(vec![9; 1024])).unwrap();
    assert_eq!(upload.size, 1024);
    assert_eq!(
        upload_file(&file_request(None), upload.size, CallOutcome::Returned(())),
        Ok("Successfully uploaded file 'a/b.txt' (1024 bytes) to mybucket".to_string())
    );
}

#[test]
fn upload_file_call_needs_the_file() {
    let error = upload_file_call(
        &file_request(None),
        Err("No such file or directory (os error 2)".to_string()),
    )
    .unwrap_err();
    assert_eq!(
        error.message(),
        "Failed to read file: No such file or directory (os error 2)"
    );
}

#[test]
fn upload_from_bytes_reports_name_size_and_bucket() {
    let request = UploadFileBytesRequest {
        config: create_test_config(),
        bucket_name: "mybucket".to_string(),
        object_key: "a/b.txt".to_string(),
        file_bytes: vec![7; 1024],
        file_name: "b.txt".to_string(),
        content_type: "text/plain".to_string(),
    };
    let upload = upload_bytes_call(request);
    assert_eq!(upload.call.bucket, "mybucket");
    assert_eq!(upload.call.key, "a/b.txt");
    assert_eq!(upload.call.body, vec![7; 1024]);
    assert_eq!(upload.call.content_type, Some("text/plain".to_string()));
    assert_eq!(upload.size, 1024);
    let result = upload_file_from_bytes(
        &upload.file_name,
        upload.size,
        &upload.bucket_name,
        CallOutcome::Returned(()),
    );
    assert_eq!(
        result,
        Ok("Successfully uploaded 'b.txt' (1024 bytes) to mybucket".to_string())
    );
}

#[test]
fn upload_from_bytes_reports_failures() {
    let error = upload_file_from_bytes(
        "b.txt",
        3,
        "mybucket",
        CallOutcome::Failed("access denied".to_string()),
    )
    .unwrap_err();
    assert_eq!(error.message(), "Upload failed: access denied");
    let error = upload_file_from_bytes(
        "b.txt",
        3,
        "mybucket",
        CallOutcome::NoClient("bad url".to_string()),
    )
    .unwrap_err();
    assert_eq!(error.message(), "bad url");
}

#[test]
fn cancelled_file_picker_is_no_failure() {
    let step = upload_files_with_dialog(create_test_config(), "mybucket".to_string(), None, None);
    match step {
        BatchStep::Done(lines) => assert_eq!(lines, Vec::<String>::new()),
        BatchStep::Upload { .. } => panic!("nothing was picked"),
    }
}

#[test]
fn batch_without_files_reports_zero() {
    let (requests, result) = run_batch(None, vec![], vec![]);
    assert!(requests.is_empty());
    assert_eq!(
        result,
        vec!["Upload complete: 0 files succeeded".to_string()]
    );
}

#[test]
fn batch_builds_one_request_per_file() {
    let (requests, result) = run_batch(
        Some("photos/"),
        vec![picked("/home/u/cat.JPG", "cat.JPG"), picked("/home/u/notes", "notes")],
        vec![Ok("stored cat".to_string()), Ok("stored notes".to_string())],
    );
    assert_eq!(requests.len(), 2);
    assert_eq!(requests[0].bucket_name, "mybucket");
    assert_eq!(requests[0].object_key, "photos/cat.JPG");
    assert_eq!(requests[0].file_path, "/home/u/cat.JPG");
    assert_eq!(requests[0].content_type, Some("image/jpeg".to_string()));
    assert_eq!(requests[0].config.endpoint, "https://test.r2.cloudflarestorage.com");
    assert_eq!(requests[0].config.region, "auto");
    assert_eq!(requests[1].object_key, "photos/notes");
    assert_eq!(requests[1].file_path, "/home/u/notes");
    assert_eq!(
        requests[1].content_type,
        Some("application/octet-stream".to_string())
    );
    assert_eq!(
        result,
        vec![
            "Upload complete: 2 files succeeded".to_string(),
            "✓ stored cat".to_string(),
            "✓ stored notes".to_string(),
        ]
    );
}

#[test]
fn batch_without_prefix_stores_under_the_name() {
    let (requests, _) = run_batch(
        None,
        vec![picked("/home/u/a.pdf", "a.pdf")],
        vec![Ok("stored".to_string())],
    );
    assert_eq!(requests[0].object_key, "a.pdf");
    assert_eq!(requests[0].content_type, Some("application/pdf".to_string()));
}

#[test]
fn batch_folds_failures_into_the_report() {
    let (requests, result) = run_batch(
        None,
        vec![
            picked("/p/a.txt", "a.txt"),
            picked("/p/b.txt", "b.txt"),
            picked("/p/c.txt", "c.txt"),
        ],
        vec![
            Err(CommandError::ReadFile("denied".to_string())),
            Ok("Successfully uploaded file 'b.txt' (3 bytes) to mybucket".to_string()),
            Err(CommandError::Upload("timeout".to_string())),
        ],
    );
    assert_eq!(requests.len(), 3);
    assert_eq!(
        result,
        vec![
            "Upload complete: 1 files succeeded".to_string(),
            "✓ Successfully uploaded file 'b.txt' (3 bytes) to mybucket".to_string(),
            "Errors:".to_string(),
            "✗ 上传 'a.txt' 失败: Failed to read file: denied".to_string(),
            "✗ 上传 'c.txt' 失败: Upload failed: timeout".to_string(),
        ]
    );
}

#[test]
fn batch_reports_an_entry_that_is_no_file() {
    let (requests, result) = run_batch(
        None,
        vec![
            picked("/p/a.txt", "a.txt"),
            PickedFile::NotAPath {
                shown: "content://media/7".to_string(),
            },
            picked("/p/c.txt", "c.txt"),
            PickedFile::Nameless {
                path: "/p/..".to_string(),
            },
        ],
        vec![Ok("stored a".to_string()), Ok("stored c".to_string())],
    );
    assert_eq!(requests.len(), 2);
    assert_eq!(requests[0].object_key, "a.txt");
    assert_eq!(requests[1].object_key, "c.txt");
    assert_eq!(
        result,
        vec![
            "Upload complete: 2 files succeeded".to_string(),
            "✓ stored a".to_string(),
            "✓ stored c".to_string(),
            "Errors:".to_string(),
            "✗ 上传 'content://media/7' 失败: 无效的文件路径".to_string(),
            "✗ 上传 '/p/..' 失败: 无法获取文件名".to_string(),
        ]
    );
}

#[test]
fn batch_of_entries_that_are_no_files_uploads_nothing() {
    let (requests, result) = run_batch(
        Some("docs/"),
        vec![
            PickedFile::Nameless {
                path: "/".to_string(),
            },
            PickedFile::NotAPath {
                shown: "content://x".to_string(),
            },
        ],
        vec![],
    );
    assert!(requests.is_empty());
    assert_eq!(
        result,
        vec![
            "Upload complete: 0 files succeeded".to_string(),
            "Errors:".to_string(),
            "✗ 上传 '/' 失败: 无法获取文件名".to_string(),
            "✗ 上传 'content://x' 失败: 无效的文件路径".to_string(),
        ]
    );
}

#[test]
fn batch_keeps_the_order_of_the_entries_among_the_failures() {
    let (requests, result) = run_batch(
        None,
        vec![
            PickedFile::NotAPath {
                shown: "first".to_string(),
            },
            picked("/p/b.txt", "b.txt"),
            PickedFile::Nameless {
                path: "third".to_string(),
            },
        ],
        vec![Err(CommandError::Upload("timeout".to_string()))],
    );
    assert_eq!(requests.len(), 1);
    assert_eq!(
        result,
        vec![
            "Upload complete: 0 files succeeded".to_string(),
            "Errors:".to_string(),
            "✗ 上传 'first' 失败: 无效的文件路径".to_string(),
            "✗ 上传 'b.txt' 失败: Upload failed: timeout".to_string(),
            "✗ 上传 'third' 失败: 无法获取文件名".to_string(),
        ]
    );
}

#[test]
fn file_picker_offers_the_filter_groups() {
    assert_eq!(upload_dialog_title(), "选择要上传的文件");
    let filters = upload_dialog_filters();
    let listed: Vec<(&str, Vec<&str>)> = filters
        .iter()
        .map(|f| (f.name, f.extensions.clone()))
        .collect();
    assert_eq!(
        listed,
        vec![
            ("All files", vec!["*"]),
            (
                "Image files",
                vec!["jpg", "jpeg", "png", "gif", "webp", "svg", "bmp", "ico"]
            ),
            (
                "Document files",
                vec!["pdf", "doc", "docx", "xls", "xlsx", "ppt", "pptx"]
            ),
            (
                "Text files",
                vec!["txt", "md", "html", "htm", "css", "js", "json", "xml", "csv"]
            ),
            ("Audio files", vec!["mp3", "wav", "ogg", "flac"]),
            (
                "Video files",
                vec!["mp4", "avi", "mov", "wmv", "flv", "webm"]
            ),
            ("Archive files", vec!["zip", "rar", "7z", "tar", "gz"]),
        ]
    );
}
