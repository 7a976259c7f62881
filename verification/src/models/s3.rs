//! The records exchanged with the user interface: the connection
//! configuration and the request and response of every operation.

use vstd::prelude::*;

verus! {

/// The characters of an optional text, where there is one.
pub open spec fn text_of(text: Option<String>) -> Option<Seq<char>> {
    match text {
        Some(t) => Some(t@),
        None => None,
    }
}

/// Copies an optional text.
pub fn copy_text(text: &Option<String>) -> (res: Option<String>)
    ensures
        res == *text,
{
    match text {
        Some(t) => Some(t.clone()),
        None => None,
    }
}

/// How to reach a storage service. It is supplied with every request;
/// nothing is kept between two of them.
#[derive(Debug)]
pub struct S3Config {
    pub endpoint: String,
    /// Empty, or `auto`, stands for the default region.
    pub region: String,
    pub access_key_id: String,
    pub secret_access_key: String,
    /// Carried along; no operation reads it.
    pub bucket: Option<String>,
    /// Carried along; no operation reads it.
    pub custom_path: Option<String>,
}

pub struct S3ConfigView {
    pub endpoint: Seq<char>,
    pub region: Seq<char>,
    pub access_key_id: Seq<char>,
    pub secret_access_key: Seq<char>,
    pub bucket: Option<Seq<char>>,
    pub custom_path: Option<Seq<char>>,
}

impl View for S3Config {
    type V = S3ConfigView;

    open spec fn view(&self) -> S3ConfigView {
        S3ConfigView {
            endpoint: self.endpoint@,
            region: self.region@,
            access_key_id: self.access_key_id@,
            secret_access_key: self.secret_access_key@,
            bucket: text_of(self.bucket),
            custom_path: text_of(self.custom_path),
        }
    }
}

impl Clone for S3Config {
    fn clone(&self) -> (res: Self)
        ensures
            res == *self,
    {
        S3Config {
            endpoint: self.endpoint.clone(),
            region: self.region.clone(),
            access_key_id: self.access_key_id.clone(),
            secret_access_key: self.secret_access_key.clone(),
            bucket: copy_text(&self.bucket),
            custom_path: copy_text(&self.custom_path),
        }
    }
}

/// One object of a bucket, as an object listing reports it.
#[derive(Debug)]
pub struct S3Object {
    pub key: String,
    /// Size in bytes.
    pub size: Option<i64>,
    pub last_modified: Option<String>,
    pub etag: Option<String>,
    pub storage_class: Option<String>,
}

pub struct S3ObjectView {
    pub key: Seq<char>,
    pub size: Option<i64>,
    pub last_modified: Option<Seq<char>>,
    pub etag: Option<Seq<char>>,
    pub storage_class: Option<Seq<char>>,
}

impl View for S3Object {
    type V = S3ObjectView;

    open spec fn view(&self) -> S3ObjectView {
        S3ObjectView {
            key: self.key@,
            size: self.size,
            last_modified: text_of(self.last_modified),
            etag: text_of(self.etag),
            storage_class: text_of(self.storage_class),
        }
    }
}

/// One bucket, as a bucket listing reports it.
#[derive(Debug)]
pub struct BucketInfo {
    pub name: String,
    /// Absent where the service reported none.
    pub creation_date: Option<String>,
}

pub struct BucketInfoView {
    pub name: Seq<char>,
    pub creation_date: Option<Seq<char>>,
}

impl View for BucketInfo {
    type V = BucketInfoView;

    open spec fn view(&self) -> BucketInfoView {
        BucketInfoView { name: self.name@, creation_date: text_of(self.creation_date) }
    }
}

/// Asks for the objects of a bucket, optionally only those whose key
/// starts with `prefix`.
#[derive(Debug)]
pub struct ListObjectsRequest {
    pub config: S3Config,
    /// Must not be empty.
    pub bucket_name: String,
    pub prefix: Option<String>,
}

/// Asks for the deletion of the listed objects, in the order given.
#[derive(Debug)]
pub struct DeleteObjectsRequest {
    pub config: S3Config,
    pub bucket_name: String,
    pub object_keys: Vec<String>,
}

/// Asks for a presigned download address of one object.
#[derive(Debug)]
pub struct GetPresignedUrlRequest {
    pub config: S3Config,
    pub bucket_name: String,
    pub object_key: String,
    /// Validity in seconds; one hour where absent.
    pub expires_in_seconds: Option<u64>,
}

/// Asks for one object to be saved to a place the user picks.
#[derive(Debug)]
pub struct DownloadFileRequest {
    pub config: S3Config,
    pub bucket_name: String,
    pub object_key: String,
    /// The name the save dialog proposes.
    pub default_file_name: String,
}

/// Asks for a local file to be stored as an object.
#[derive(Debug)]
pub struct UploadFileRequest {
    pub config: S3Config,
    pub bucket_name: String,
    pub object_key: String,
    pub file_path: String,
    pub content_type: Option<String>,
}

pub struct UploadFileRequestView {
    pub config: S3ConfigView,
    pub bucket_name: Seq<char>,
    pub object_key: Seq<char>,
    pub file_path: Seq<char>,
    pub content_type: Option<Seq<char>>,
}

impl View for UploadFileRequest {
    type V = UploadFileRequestView;

    open spec fn view(&self) -> UploadFileRequestView {
        UploadFileRequestView {
            config: self.config@,
            bucket_name: self.bucket_name@,
            object_key: self.object_key@,
            file_path: self.file_path@,
            content_type: text_of(self.content_type),
        }
    }
}

/// Asks for a buffer of bytes to be stored as an object.
#[derive(Debug)]
pub struct UploadFileBytesRequest {
    pub config: S3Config,
    pub bucket_name: String,
    pub object_key: String,
    pub file_bytes: Vec<u8>,
    /// Named in the report only.
    pub file_name: String,
    pub content_type: String,
}

} // verus!
