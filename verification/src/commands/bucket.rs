//! Testing a connection and listing buckets.

use crate::error::{CommandError, ConnectionFault, ConnectionFaultView};
use crate::models::s3::{copy_text, text_of, BucketInfo, BucketInfoView};
use crate::services::storage::{text_or_empty, BucketRecord, CallOutcome};
use crate::utils::text::{contains, contains_spec, decimal, decimal_spec, prefixed};
use vstd::prelude::*;

verus! {

/// The fault that an error text of the storage service points to. The
/// text is searched for a few words, as written and in this order: the
/// first pair that matches decides.
pub open spec fn classify_spec(text: Seq<char>) -> ConnectionFaultView {
    if contains_spec(text, "credentials"@) || contains_spec(text, "access"@) {
        ConnectionFaultView::Credentials
    } else if contains_spec(text, "endpoint"@) || contains_spec(text, "host"@) {
        ConnectionFaultView::Endpoint
    } else if contains_spec(text, "region"@) {
        ConnectionFaultView::Region
    } else {
        ConnectionFaultView::Service(text)
    }
}

/// The text shown when a connection test fails with the given error
/// text of the storage service.
pub open spec fn connection_failure_text(text: Seq<char>) -> Seq<char> {
    match classify_spec(text) {
        ConnectionFaultView::Credentials =>
            "No valid credentials found. Please check your Access Key ID and Secret Access Key."@,
        ConnectionFaultView::Endpoint =>
            "Invalid endpoint URL. Please check your endpoint configuration."@,
        ConnectionFaultView::Region => "Invalid region. For R2, try using 'auto' or leave empty."@,
        ConnectionFaultView::Service(raw) => "Service error: "@ + raw
            + ". Please check your endpoint URL and credentials."@,
    }
}

/// The text shown when a connection test finds `count` buckets.
pub open spec fn connection_success_text(count: nat) -> Seq<char> {
    "Connection successful! Found "@ + decimal_spec(count) + " buckets"@
}

/// The bucket reported for a listed record: a missing name becomes the
/// empty name, a missing creation date stays absent.
pub open spec fn bucket_info_spec(record: BucketRecord) -> BucketInfoView {
    BucketInfoView {
        name: text_or_empty(record.name),
        creation_date: text_of(record.creation_date),
    }
}

/// An error text that names the credentials or the access is answered
/// with the hint at the key pair, whatever else it names. One that names
/// neither but the endpoint or the host is answered with the hint at the
/// endpoint; one that names only the region, with the hint at the
/// region; and any other text is handed on inside the general answer.
pub proof fn lemma_connection_failure_texts(text: Seq<char>)
    ensures
        contains_spec(text, "credentials"@) || contains_spec(text, "access"@)
            ==> connection_failure_text(text)
            == "No valid credentials found. Please check your Access Key ID and Secret Access Key."@,
        !contains_spec(text, "credentials"@) && !contains_spec(text, "access"@) && (contains_spec(
            text,
            "endpoint"@,
        ) || contains_spec(text, "host"@)) ==> connection_failure_text(text)
            == "Invalid endpoint URL. Please check your endpoint configuration."@,
        !contains_spec(text, "credentials"@) && !contains_spec(text, "access"@) && !contains_spec(
            text,
            "endpoint"@,
        ) && !contains_spec(text, "host"@) && contains_spec(text, "region"@)
            ==> connection_failure_text(text)
            == "Invalid region. For R2, try using 'auto' or leave empty."@,
        !contains_spec(text, "credentials"@) && !contains_spec(text, "access"@) && !contains_spec(
            text,
            "endpoint"@,
        ) && !contains_spec(text, "host"@) && !contains_spec(text, "region"@)
            ==> connection_failure_text(text) == "Service error: "@ + text
            + ". Please check your endpoint URL and credentials."@,
{
}

/// Classifies an error text of the storage service.
pub fn classify_connection_error(text: &str) -> (res: ConnectionFault)
    ensures
        res@ == classify_spec(text@),
        res.message_spec() == connection_failure_text(text@),
{
    if contains(text, "credentials") || contains(text, "access") {
        ConnectionFault::Credentials
    } else if contains(text, "endpoint") || contains(text, "host") {
        ConnectionFault::Endpoint
    } else if contains(text, "region") {
        ConnectionFault::Region
    } else {
        ConnectionFault::Service(text.to_string())
    }
}

/// Concludes a connection test from what came of listing the buckets:
/// a count of the buckets found, or the failure with a remedy where the
/// error text points to one.
pub fn test_s3_connection(outcome: CallOutcome<usize>) -> (res: Result<String, CommandError>)
    ensures
        match outcome {
            CallOutcome::Returned(count) => res matches Ok(text) && text@
                == connection_success_text(count as nat),
            CallOutcome::Failed(raw) => res matches Err(CommandError::Connection(fault))
                && fault@ == classify_spec(raw@) && fault.message_spec()
                == connection_failure_text(raw@),
            CallOutcome::NoClient(raw) => res matches Err(CommandError::ConnectionSetup(text))
                && text@ == raw@,
        },
{
    match outcome {
        CallOutcome::Returned(count) => {
            let mut text = prefixed(
                "Connection successful! Found ",
                decimal(count as u64).as_str(),
            );
            text.append(" buckets");
            Ok(text)
        },
        CallOutcome::Failed(raw) => Err(
            CommandError::Connection(classify_connection_error(raw.as_str())),
        ),
        CallOutcome::NoClient(raw) => Err(CommandError::ConnectionSetup(raw)),
    }
}

/// Concludes a bucket listing: every listed record becomes a bucket, in
/// the order of the listing.
pub fn list_buckets(outcome: CallOutcome<Vec<BucketRecord>>) -> (res: Result<
    Vec<BucketInfo>,
    CommandError,
>)
    ensures
        match outcome {
            CallOutcome::Returned(records) => res matches Ok(buckets) && buckets@.len()
                == records@.len() && forall|i: int|
                0 <= i < records@.len() ==> (#[trigger] buckets@[i])@ == bucket_info_spec(
                    records@[i],
                ),
            CallOutcome::Failed(raw) => res matches Err(CommandError::ListBuckets(text)) && text@
                == raw@,
            CallOutcome::NoClient(raw) => res matches Err(CommandError::ClientConstruction(text))
                && text@ == raw@,
        },
{
    match outcome {
        CallOutcome::Returned(records) => {
            let mut buckets: Vec<BucketInfo> = Vec::new();
            let mut i: usize = 0;
            while i < records.len()
                invariant
                    i <= records.len(),
                    buckets.len() == i,
                    forall|k: int|
                        0 <= k < i ==> (#[trigger] buckets@[k])@ == bucket_info_spec(records@[k]),
                decreases records.len() - i,
            {
                let name = match &records[i].name {
                    Some(name) => name.clone(),
                    None => String::new(),
                };
                buckets.push(
                    BucketInfo { name, creation_date: copy_text(&records[i].creation_date) },
                );
                i += 1;
            }
            Ok(buckets)
        },
        CallOutcome::Failed(raw) => Err(CommandError::ListBuckets(raw)),
        CallOutcome::NoClient(raw) => Err(CommandError::ClientConstruction(raw)),
    }
}

} // verus!
