use s3_manager::utils::content_type::guess_content_type;

#[test]
fn test_guess_content_type() {
    assert_eq!(guess_content_type("test.jpg"), "image/jpeg");
    assert_eq!(guess_content_type("test.png"), "image/png");
    assert_eq!(guess_content_type("test.pdf"), "application/pdf");
    assert_eq!(guess_content_type("test.txt"), "text/plain");
    assert_eq!(guess_content_type("test.mp4"), "video/mp4");
    assert_eq!(
        guess_content_type("test.unknown"),
        "application/octet-stream"
    );
}

#[test]
fn guess_content_type_without_extension() {
    assert_eq!(guess_content_type("README"), "application/octet-stream");
    assert_eq!(guess_content_type(""), "application/octet-stream");
    assert_eq!(guess_content_type("archive."), "application/octet-stream");
    // A name without a dot has no extension, even where it spells one.
    assert_eq!(guess_content_type("jpg"), "application/octet-stream");
    assert_eq!(guess_content_type("zip"), "application/octet-stream");
}

#[test]
fn guess_content_type_ignores_case() {
    assert_eq!(guess_content_type("PHOTO.JPG"), "image/jpeg");
    assert_eq!(guess_content_type("Photo.JpEg"), "image/jpeg");
    assert_eq!(guess_content_type("notes.MD"), "text/markdown");
    assert_eq!(guess_content_type("backup.Tar"), "application/x-tar");
}

#[test]
fn guess_content_type_reads_what_follows_the_last_dot() {
    assert_eq!(guess_content_type("report.txt.zip"), "application/zip");
    assert_eq!(guess_content_type("a.b.tar.gz"), "application/gzip");
    assert_eq!(guess_content_type(".html"), "text/html");
    assert_eq!(guess_content_type("dir.d/file"), "application/octet-stream");
    assert_eq!(guess_content_type("x. png"), "application/octet-stream");
}

#[test]
fn guess_content_type_leaves_other_letters_alone() {
    // The Kelvin sign lowers to a `k` in Unicode; no extension holds one.
    assert_eq!(guess_content_type("x.m\u{212A}v"), "application/octet-stream");
    assert_eq!(guess_content_type("x.ÄB"), "application/octet-stream");
    assert_eq!(guess_content_type("图片.PNG"), "image/png");
}

#[test]
fn guess_content_type_knows_the_whole_table() {
    let table = [
        ("jpg", "image/jpeg"),
        ("jpeg", "image/jpeg"),
        ("png", "image/png"),
        ("gif", "image/gif"),
        ("webp", "image/webp"),
        ("svg", "image/svg+xml"),
        ("bmp", "image/bmp"),
        ("ico", "image/x-icon"),
        ("pdf", "application/pdf"),
        ("doc", "application/msword"),
        (
            "docx",
            "application/vnd.openxmlformats-officedocument.wordprocessingml.document",
        ),
        ("xls", "application/vnd.ms-excel"),
        (
            "xlsx",
            "application/vnd.openxmlformats-officedocument.spreadsheetml.sheet",
        ),
        ("ppt", "application/vnd.ms-powerpoint"),
        (
            "pptx",
            "application/vnd.openxmlformats-officedocument.presentationml.presentation",
        ),
        ("txt", "text/plain"),
        ("md", "text/markdown"),
        ("html", "text/html"),
        ("htm", "text/html"),
        ("css", "text/css"),
        ("js", "text/javascript"),
        ("json", "application/json"),
        ("xml", "text/xml"),
        ("csv", "text/csv"),
        ("mp3", "audio/mpeg"),
        ("wav", "audio/wav"),
        ("ogg", "audio/ogg"),
        ("flac", "audio/flac"),
        ("mp4", "video/mp4"),
        ("avi", "video/x-msvideo"),
        ("mov", "video/quicktime"),
        ("wmv", "video/x-ms-wmv"),
        ("flv", "video/x-flv"),
        ("webm", "video/webm"),
        ("zip", "application/zip"),
        ("rar", "application/x-rar-compressed"),
        ("7z", "application/x-7z-compressed"),
        ("tar", "application/x-tar"),
        ("gz", "application/gzip"),
    ];
    for (extension, expected) in table {
        let lower = format!("file.{}", extension);
        let upper = format!("FILE.{}", extension.to_uppercase());
        assert_eq!(guess_content_type(&lower), expected);
        assert_eq!(guess_content_type(&upper), expected);
    }
}
