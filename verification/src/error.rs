//! What can go wrong in an operation, as a tagged value, and the text in
//! which each failure is reported to the user.

use crate::utils::text::{
    contains_spec,
    decimal,
    decimal_spec,
    join,
    join_spec,
    lemma_contains_within,
    lemma_join_contains_part,
    occurs_at,
    prefixed,
};
use vstd::prelude::*;

verus! {

/// The families of failure.
#[derive(Debug, Clone, Copy, PartialEq, Eq, Structural)]
pub enum ErrorKind {
    /// An argument failed a precondition; nothing was sent.
    Validation,
    /// No storage client could be built from the configuration.
    Construction,
    /// The storage service refused the request or was out of reach.
    Connectivity,
    /// Some objects of a bulk deletion were deleted and others were not.
    PartialFailure,
    /// The user dismissed a dialog without choosing.
    UserCancellation,
    /// A local file could not be read or written.
    LocalIo,
    /// Fetching a presigned address over HTTP failed.
    HttpTransfer,
}

/// Why a connection test failed, as far as the error text tells.
#[derive(Debug, PartialEq, Eq)]
pub enum ConnectionFault {
    Credentials,
    Endpoint,
    Region,
    /// None of the above; the service's text is kept.
    Service(String),
}

/// A connection fault with the service's text as characters.
pub enum ConnectionFaultView {
    Credentials,
    Endpoint,
    Region,
    Service(Seq<char>),
}

impl View for ConnectionFault {
    type V = ConnectionFaultView;

    open spec fn view(&self) -> ConnectionFaultView {
        match self {
            ConnectionFault::Credentials => ConnectionFaultView::Credentials,
            ConnectionFault::Endpoint => ConnectionFaultView::Endpoint,
            ConnectionFault::Region => ConnectionFaultView::Region,
            ConnectionFault::Service(text) => ConnectionFaultView::Service(text@),
        }
    }
}

/// One object that a bulk deletion could not delete.
#[derive(Debug, PartialEq, Eq)]
pub struct DeleteFailure {
    pub key: String,
    pub reason: String,
}

pub struct DeleteFailureView {
    pub key: Seq<char>,
    pub reason: Seq<char>,
}

impl View for DeleteFailure {
    type V = DeleteFailureView;

    open spec fn view(&self) -> DeleteFailureView {
        DeleteFailureView { key: self.key@, reason: self.reason@ }
    }
}

/// The views of the failures, in their order.
pub open spec fn failure_views(failures: Seq<DeleteFailure>) -> Seq<DeleteFailureView> {
    Seq::new(failures.len(), |i: int| failures[i]@)
}

/// The failure of an operation.
#[derive(Debug, PartialEq, Eq)]
pub enum CommandError {
    EmptyBucketName,
    /// No client could be built; the text is the builder's.
    ClientConstruction(String),
    /// No client could be built for a connection test.
    ConnectionSetup(String),
    Connection(ConnectionFault),
    ListBuckets(String),
    ListObjects(String),
    Upload(String),
    PresigningConfig(String),
    PresignedUrl(String),
    PartialDelete { deleted: usize, failures: Vec<DeleteFailure> },
    SaveCancelled,
    /// A chosen location is no path of the local file system.
    InvalidPath,
    /// A chosen file has no name that can be written as text.
    MissingFileName,
    ReadFile(String),
    WriteFile(String),
    Fetch(String),
    HttpStatus(String),
    ResponseBody(String),
}

/// The report line of one failed deletion.
pub open spec fn delete_failure_line(key: Seq<char>, reason: Seq<char>) -> Seq<char> {
    "Failed to delete "@ + key + ": "@ + reason
}

/// The report lines of the failed deletions, in their order.
pub open spec fn delete_failure_lines(failures: Seq<DeleteFailureView>) -> Seq<Seq<char>> {
    Seq::new(failures.len(), |i: int| delete_failure_line(failures[i].key, failures[i].reason))
}

/// The text reporting that `deleted` objects were deleted and the given
/// ones were not.
pub open spec fn partial_delete_text(deleted: nat, failures: Seq<DeleteFailureView>) -> Seq<
    char,
> {
    "Deleted "@ + decimal_spec(deleted) + " objects, but encountered errors: "@ + join_spec(
        delete_failure_lines(failures),
        ", "@,
    )
}

/// The text of a partial failure tells how many objects were deleted
/// and holds the report line of every failure.
pub proof fn lemma_partial_delete_text_tells_all(
    deleted: nat,
    failures: Seq<DeleteFailureView>,
    i: int,
)
    requires
        0 <= i < failures.len(),
    ensures
        contains_spec(
            partial_delete_text(deleted, failures),
            "Deleted "@ + decimal_spec(deleted) + " objects"@,
        ),
        contains_spec(
            partial_delete_text(deleted, failures),
            delete_failure_line(failures[i].key, failures[i].reason),
        ),
{
    let text = partial_delete_text(deleted, failures);
    let lines = delete_failure_lines(failures);
    let joined = join_spec(lines, ", "@);
    let head = "Deleted "@ + decimal_spec(deleted);
    let opening = head + " objects"@;
    reveal_strlit(" objects");
    reveal_strlit(" objects, but encountered errors: ");
    assert(text.subrange(0, opening.len() as int) =~= opening);
    assert(occurs_at(text, opening, 0));
    lemma_join_contains_part(lines, ", "@, i);
    lemma_contains_within(
        head + " objects, but encountered errors: "@,
        joined,
        Seq::empty(),
        lines[i],
    );
    assert(head + " objects, but encountered errors: "@ + joined + Seq::<char>::empty() =~= text);
}

impl ConnectionFault {
    /// The text shown for the fault.
    pub open spec fn message_spec(&self) -> Seq<char> {
        match self {
            ConnectionFault::Credentials =>
                "No valid credentials found. Please check your Access Key ID and Secret Access Key."@,
            ConnectionFault::Endpoint =>
                "Invalid endpoint URL. Please check your endpoint configuration."@,
            ConnectionFault::Region => "Invalid region. For R2, try using 'auto' or leave empty."@,
            ConnectionFault::Service(text) => "Service error: "@ + text@
                + ". Please check your endpoint URL and credentials."@,
        }
    }

    /// Renders the fault for the user.
    pub fn message(&self) -> (res: String)
        ensures
            res@ == self.message_spec(),
    {
        match self {
            ConnectionFault::Credentials =>
                "No valid credentials found. Please check your Access Key ID and Secret Access Key.".to_string(),
            ConnectionFault::Endpoint =>
                "Invalid endpoint URL. Please check your endpoint configuration.".to_string(),
            ConnectionFault::Region =>
                "Invalid region. For R2, try using 'auto' or leave empty.".to_string(),
            ConnectionFault::Service(text) => {
                let mut res = prefixed("Service error: ", text.as_str());
                res.append(". Please check your endpoint URL and credentials.");
                res
            },
        }
    }
}

impl DeleteFailure {
    /// Renders the failure as a report line.
    pub fn line(&self) -> (res: String)
        ensures
            res@ == delete_failure_line(self.key@, self.reason@),
    {
        let mut res = prefixed("Failed to delete ", self.key.as_str());
        res.append(": ");
        res.append(self.reason.as_str());
        res
    }
}

fn failure_lines(failures: &Vec<DeleteFailure>) -> (res: Vec<String>)
    ensures
        res@.map_values(|l: String| l@) == delete_failure_lines(failure_views(failures@)),
{
    let mut res: Vec<String> = Vec::new();
    let mut i: usize = 0;
    while i < failures.len()
        invariant
            i <= failures.len(),
            res.len() == i,
            forall|k: int|
                0 <= k < i ==> res@[k]@ == delete_failure_line(
                    failures@[k].key@,
                    failures@[k].reason@,
                ),
        decreases failures.len() - i,
    {
        res.push(failures[i].line());
        i += 1;
    }
    assert(res@.map_values(|l: String| l@) =~= delete_failure_lines(failure_views(failures@)));
    res
}

impl CommandError {
    /// The family the failure belongs to.
    pub open spec fn kind_spec(&self) -> ErrorKind {
        match self {
            CommandError::EmptyBucketName => ErrorKind::Validation,
            CommandError::ClientConstruction(_) => ErrorKind::Construction,
            CommandError::ConnectionSetup(_) => ErrorKind::Construction,
            CommandError::Connection(_) => ErrorKind::Connectivity,
            CommandError::ListBuckets(_) => ErrorKind::Connectivity,
            CommandError::ListObjects(_) => ErrorKind::Connectivity,
            CommandError::Upload(_) => ErrorKind::Connectivity,
            CommandError::PresigningConfig(_) => ErrorKind::Validation,
            CommandError::PresignedUrl(_) => ErrorKind::Connectivity,
            CommandError::PartialDelete { .. } => ErrorKind::PartialFailure,
            CommandError::SaveCancelled => ErrorKind::UserCancellation,
            CommandError::InvalidPath => ErrorKind::LocalIo,
            CommandError::MissingFileName => ErrorKind::LocalIo,
            CommandError::ReadFile(_) => ErrorKind::LocalIo,
            CommandError::WriteFile(_) => ErrorKind::LocalIo,
            CommandError::Fetch(_) => ErrorKind::HttpTransfer,
            CommandError::HttpStatus(_) => ErrorKind::HttpTransfer,
            CommandError::ResponseBody(_) => ErrorKind::HttpTransfer,
        }
    }

    /// The text shown to the user for the failure.
    pub open spec fn message_spec(&self) -> Seq<char> {
        match self {
            CommandError::EmptyBucketName => "Bucket name cannot be empty"@,
            CommandError::ClientConstruction(text) => text@,
            CommandError::ConnectionSetup(text) => "Failed to create S3 client: "@ + text@,
            CommandError::Connection(fault) => fault.message_spec(),
            CommandError::ListBuckets(text) => "Failed to list buckets: "@ + text@,
            CommandError::ListObjects(text) => "Failed to list objects: "@ + text@,
            CommandError::Upload(text) => "Upload failed: "@ + text@,
            CommandError::PresigningConfig(text) => "Failed to create presigning config: "@
                + text@,
            CommandError::PresignedUrl(text) => "Failed to generate presigned URL: "@ + text@,
            CommandError::PartialDelete { deleted, failures } => partial_delete_text(
                *deleted as nat,
                failure_views(failures@),
            ),
            CommandError::SaveCancelled => "User cancelled file save"@,
            CommandError::InvalidPath => "无效的文件路径"@,
            CommandError::MissingFileName => "无法获取文件名"@,
            CommandError::ReadFile(text) => "Failed to read file: "@ + text@,
            CommandError::WriteFile(text) => "Failed to write file: "@ + text@,
            CommandError::Fetch(text) => "Failed to download file: "@ + text@,
            CommandError::HttpStatus(status) => "Download failed with status: "@ + status@,
            CommandError::ResponseBody(text) => "Failed to read response content: "@ + text@,
        }
    }

    /// Tells which family the failure belongs to.
    pub fn kind(&self) -> (res: ErrorKind)
        ensures
            res == self.kind_spec(),
    {
        match self {
            CommandError::EmptyBucketName => ErrorKind::Validation,
            CommandError::ClientConstruction(_) => ErrorKind::Construction,
            CommandError::ConnectionSetup(_) => ErrorKind::Construction,
            CommandError::Connection(_) => ErrorKind::Connectivity,
            CommandError::ListBuckets(_) => ErrorKind::Connectivity,
            CommandError::ListObjects(_) => ErrorKind::Connectivity,
            CommandError::Upload(_) => ErrorKind::Connectivity,
            CommandError::PresigningConfig(_) => ErrorKind::Validation,
            CommandError::PresignedUrl(_) => ErrorKind::Connectivity,
            CommandError::PartialDelete { .. } => ErrorKind::PartialFailure,
            CommandError::SaveCancelled => ErrorKind::UserCancellation,
            CommandError::InvalidPath => ErrorKind::LocalIo,
            CommandError::MissingFileName => ErrorKind::LocalIo,
            CommandError::ReadFile(_) => ErrorKind::LocalIo,
            CommandError::WriteFile(_) => ErrorKind::LocalIo,
            CommandError::Fetch(_) => ErrorKind::HttpTransfer,
            CommandError::HttpStatus(_) => ErrorKind::HttpTransfer,
            CommandError::ResponseBody(_) => ErrorKind::HttpTransfer,
        }
    }

    /// Renders the failure as the text that is shown to the user.
    pub fn message(&self) -> (res: String)
        ensures
            res@ == self.message_spec(),
    {
        match self {
            CommandError::EmptyBucketName => "Bucket name cannot be empty".to_string(),
            CommandError::ClientConstruction(text) => text.clone(),
            CommandError::ConnectionSetup(text) => prefixed(
                "Failed to create S3 client: ",
                text.as_str(),
            ),
            CommandError::Connection(fault) => fault.message(),
            CommandError::ListBuckets(text) => prefixed("Failed to list buckets: ", text.as_str()),
            CommandError::ListObjects(text) => prefixed("Failed to list objects: ", text.as_str()),
            CommandError::Upload(text) => prefixed("Upload failed: ", text.as_str()),
            CommandError::PresigningConfig(text) => prefixed(
                "Failed to create presigning config: ",
                text.as_str(),
            ),
            CommandError::PresignedUrl(text) => prefixed(
                "Failed to generate presigned URL: ",
                text.as_str(),
            ),
            CommandError::PartialDelete { deleted, failures } => {
                let mut res = prefixed("Deleted ", decimal(*deleted as u64).as_str());
                res.append(" objects, but encountered errors: ");
                let lines = failure_lines(failures);
                res.append(join(&lines, ", ").as_str());
                res
            },
            CommandError::SaveCancelled => "User cancelled file save".to_string(),
            CommandError::InvalidPath => "无效的文件路径".to_string(),
            CommandError::MissingFileName => "无法获取文件名".to_string(),
            CommandError::ReadFile(text) => prefixed("Failed to read file: ", text.as_str()),
            CommandError::WriteFile(text) => prefixed("Failed to write file: ", text.as_str()),
            CommandError::Fetch(text) => prefixed("Failed to download file: ", text.as_str()),
            CommandError::HttpStatus(status) => prefixed(
                "Download failed with status: ",
                status.as_str(),
            ),
            CommandError::ResponseBody(text) => prefixed(
                "Failed to read response content: ",
                text.as_str(),
            ),
        }
    }
}

} // verus!
