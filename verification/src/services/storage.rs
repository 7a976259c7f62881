//! The calls made to the storage service and what comes back from them,
//! as plain values.

use crate::models::s3::text_of;
use aws_sdk_s3::presigning::PresigningConfig;
use vstd::prelude::*;

verus! {

/// What came of a call to the storage service.
#[derive(Debug)]
pub enum CallOutcome<T> {
    /// The service answered.
    Returned(T),
    /// The service refused, or could not be reached; the text says why.
    Failed(String),
    /// No client could be built, so nothing was sent.
    NoClient(String),
}

/// A bucket as the service lists it.
#[derive(Debug)]
pub struct BucketRecord {
    pub name: Option<String>,
    pub creation_date: Option<String>,
}

/// An object as the service lists it.
#[derive(Debug)]
pub struct ObjectRecord {
    pub key: Option<String>,
    pub size: Option<i64>,
    pub last_modified: Option<String>,
    pub e_tag: Option<String>,
    pub storage_class: Option<String>,
}

/// A request for one page of a bucket's objects.
#[derive(Debug)]
pub struct ListObjectsCall {
    pub bucket: String,
    pub prefix: Option<String>,
}

/// A request to delete one object.
#[derive(Debug)]
pub struct DeleteObjectCall {
    pub bucket: String,
    pub key: String,
}

/// A request to store one object in a single piece.
#[derive(Debug)]
pub struct PutObjectCall {
    pub bucket: String,
    pub key: String,
    pub body: Vec<u8>,
    pub content_type: Option<String>,
}

/// A request to presign the download of one object.
#[derive(Debug)]
pub struct PresignGetCall {
    pub bucket: String,
    pub key: String,
    /// The validity in seconds that `config` is built for.
    pub expires_in_seconds: u64,
    pub config: PresigningConfig,
}

/// The characters of an optional text, or no characters.
pub open spec fn text_or_empty(text: Option<String>) -> Seq<char> {
    match text_of(text) {
        Some(t) => t,
        None => Seq::empty(),
    }
}

} // verus!
