//! Listing and deleting objects, and presigned download addresses.

use crate::error::{
    delete_failure_line,
    failure_views,
    lemma_partial_delete_text_tells_all,
    CommandError,
    DeleteFailure,
    DeleteFailureView,
};
use crate::models::s3::{
    copy_text,
    text_of,
    DeleteObjectsRequest,
    GetPresignedUrlRequest,
    ListObjectsRequest,
    S3Object,
    S3ObjectView,
};
use crate::services::presigning::{
    config_validity,
    expiry_seconds,
    expiry_seconds_spec,
    presigning_config,
    too_long_text,
    LONGEST_EXPIRY_SECONDS,
};
use crate::services::storage::{
    text_or_empty,
    CallOutcome,
    DeleteObjectCall,
    ListObjectsCall,
    ObjectRecord,
    PresignGetCall,
};
use crate::utils::text::{contains_spec, decimal, decimal_spec, prefixed};
use vstd::prelude::*;

verus! {

/// The object reported for a listed record: a missing key becomes the
/// empty key, every other field is passed on as listed.
pub open spec fn object_spec(record: ObjectRecord) -> S3ObjectView {
    S3ObjectView {
        key: text_or_empty(record.key),
        size: record.size,
        last_modified: text_of(record.last_modified),
        etag: text_of(record.e_tag),
        storage_class: text_of(record.storage_class),
    }
}

/// Prepares the listing of a bucket's objects. A request without a
/// bucket name is turned down here, before anything is sent.
pub fn list_objects_call(request: &ListObjectsRequest) -> (res: Result<
    ListObjectsCall,
    CommandError,
>)
    ensures
        res is Err <==> request.bucket_name@.len() == 0,
        res matches Err(e) ==> e == CommandError::EmptyBucketName,
        res matches Ok(call) ==> call.bucket@ == request.bucket_name@ && text_of(call.prefix)
            == text_of(request.prefix),
{
    if request.bucket_name.as_str().unicode_len() == 0 {
        return Err(CommandError::EmptyBucketName);
    }
    Ok(
        ListObjectsCall {
            bucket: request.bucket_name.clone(),
            prefix: copy_text(&request.prefix),
        },
    )
}

/// Concludes an object listing: every record of the page that came back
/// becomes an object, in the order of the listing.
pub fn list_objects(outcome: CallOutcome<Vec<ObjectRecord>>) -> (res: Result<
    Vec<S3Object>,
    CommandError,
>)
    ensures
        match outcome {
            CallOutcome::Returned(records) => res matches Ok(objects) && objects@.len()
                == records@.len() && forall|i: int|
                0 <= i < records@.len() ==> (#[trigger] objects@[i])@ == object_spec(records@[i]),
            CallOutcome::Failed(raw) => res matches Err(CommandError::ListObjects(text)) && text@
                == raw@,
            CallOutcome::NoClient(raw) => res matches Err(CommandError::ClientConstruction(text))
                && text@ == raw@,
        },
{
    match outcome {
        CallOutcome::Returned(records) => {
            let mut objects: Vec<S3Object> = Vec::new();
            let mut i: usize = 0;
            while i < records.len()
                invariant
                    i <= records.len(),
                    objects.len() == i,
                    forall|k: int|
                        0 <= k < i ==> (#[trigger] objects@[k])@ == object_spec(records@[k]),
                decreases records.len() - i,
            {
                let record = &records[i];
                let key = match &record.key {
                    Some(key) => key.clone(),
                    None => String::new(),
                };
                objects.push(
                    S3Object {
                        key,
                        size: record.size,
                        last_modified: copy_text(&record.last_modified),
                        etag: copy_text(&record.e_tag),
                        storage_class: copy_text(&record.storage_class),
                    },
                );
                i += 1;
            }
            Ok(objects)
        },
        CallOutcome::Failed(raw) => Err(CommandError::ListObjects(raw)),
        CallOutcome::NoClient(raw) => Err(CommandError::ClientConstruction(raw)),
    }
}

/// What the service answered to one deletion: nothing where the object
/// was deleted, the reason where it was not.
pub type DeleteReply = Option<Seq<char>>;

/// The reply that an outcome stands for.
pub open spec fn reply_of(outcome: Result<(), String>) -> DeleteReply {
    match outcome {
        Ok(_) => None,
        Err(reason) => Some(reason@),
    }
}

/// How many of the replies report a deletion.
pub open spec fn deleted_count(replies: Seq<DeleteReply>) -> nat
    decreases replies.len(),
{
    if replies.len() == 0 {
        0
    } else {
        deleted_count(replies.drop_last()) + if replies.last() is None {
            1nat
        } else {
            0nat
        }
    }
}

/// The failures among the replies, each with the key it answers, in the
/// order of the keys. The reply at a position answers the key at that
/// position.
pub open spec fn failures_spec(keys: Seq<Seq<char>>, replies: Seq<DeleteReply>) -> Seq<
    DeleteFailureView,
>
    decreases replies.len(),
{
    if replies.len() == 0 {
        Seq::empty()
    } else {
        let earlier = failures_spec(keys, replies.drop_last());
        match replies.last() {
            None => earlier,
            Some(reason) => earlier.push(
                DeleteFailureView { key: keys[replies.len() - 1], reason },
            ),
        }
    }
}

/// The text that reports `count` deletions without a failure.
pub open spec fn delete_success_text(count: nat) -> Seq<char> {
    "Successfully deleted "@ + decimal_spec(count) + " objects"@
}

/// Whether `result` reports `deleted` deletions and the given failures:
/// the count alone where nothing failed, and otherwise a failure that
/// holds the count and every failed key with its reason.
pub open spec fn is_delete_summary(
    result: Result<String, CommandError>,
    deleted: nat,
    failures: Seq<DeleteFailureView>,
) -> bool {
    if failures.len() == 0 {
        result matches Ok(text) && text@ == delete_success_text(deleted)
    } else {
        result matches Err(CommandError::PartialDelete { deleted: count, failures: listed })
            && count == deleted && failure_views(listed@) == failures
    }
}

/// Whether `result` is what a bulk deletion reports once the replies to
/// all its keys are in.
pub open spec fn is_delete_result(
    result: Result<String, CommandError>,
    keys: Seq<Seq<char>>,
    replies: Seq<DeleteReply>,
) -> bool {
    is_delete_summary(result, deleted_count(replies), failures_spec(keys, replies))
}

/// The keys of `keys`, as characters.
pub open spec fn key_views(keys: Seq<String>) -> Seq<Seq<char>> {
    Seq::new(keys.len(), |i: int| keys[i]@)
}

/// A bulk deletion under way: at least one key is still to be deleted.
/// The keys are taken one by one, in the order of the request.
pub struct DeleteRun {
    bucket: String,
    keys: Vec<String>,
    deleted: usize,
    failures: Vec<DeleteFailure>,
    replies: Ghost<Seq<DeleteReply>>,
}

/// What a bulk deletion does next.
pub enum DeleteStep {
    /// Make this call and hand its outcome to the run.
    Call { run: DeleteRun, call: DeleteObjectCall },
    /// Every key has been dealt with.
    Done(Result<String, CommandError>),
}

impl DeleteRun {
    /// The bucket the keys are deleted from.
    pub closed spec fn bucket(&self) -> Seq<char> {
        self.bucket@
    }

    /// All keys of the request.
    pub closed spec fn keys(&self) -> Seq<Seq<char>> {
        key_views(self.keys@)
    }

    /// The replies received so far: one for each key already dealt with.
    pub closed spec fn replies(&self) -> Seq<DeleteReply> {
        self.replies@
    }

    /// The run counts what the replies so far report, and a key is left.
    pub closed spec fn wf(&self) -> bool {
        &&& self.replies@.len() < self.keys@.len()
        &&& self.deleted == deleted_count(self.replies@)
        &&& failure_views(self.failures@) == failures_spec(key_views(self.keys@), self.replies@)
    }
}

/// Whether `step` is the step of a deletion from `bucket` of `keys`
/// that has received `replies`: the call for the first key without a
/// reply, or the result once every key has one.
pub open spec fn is_delete_step(
    step: DeleteStep,
    bucket: Seq<char>,
    keys: Seq<Seq<char>>,
    replies: Seq<DeleteReply>,
) -> bool {
    if replies.len() < keys.len() {
        &&& step matches DeleteStep::Call { run, call }
        &&& run.wf()
        &&& run.bucket() == bucket
        &&& run.keys() == keys
        &&& run.replies() == replies
        &&& call.bucket@ == bucket
        &&& call.key@ == keys[replies.len() as int]
    } else {
        step matches DeleteStep::Done(result) && is_delete_result(result, keys, replies)
    }
}

/// The replies report as many deletions and failures as there are
/// replies, and no more failures than replies.
pub proof fn lemma_replies_are_counted(keys: Seq<Seq<char>>, replies: Seq<DeleteReply>)
    ensures
        deleted_count(replies) + failures_spec(keys, replies).len() == replies.len(),
    decreases replies.len(),
{
    if replies.len() > 0 {
        lemma_replies_are_counted(keys, replies.drop_last());
    }
}

/// Where every reply reports a deletion, nothing has failed and the
/// count of deletions is the number of replies. Where a reply reports a
/// failure, the key it answers is among the failures with its reason.
pub proof fn lemma_failures_are_the_failed_keys(keys: Seq<Seq<char>>, replies: Seq<DeleteReply>)
    ensures
        (forall|i: int| 0 <= i < replies.len() ==> replies[i] is None) ==> failures_spec(
            keys,
            replies,
        ).len() == 0 && deleted_count(replies) == replies.len(),
        forall|i: int|
            0 <= i < replies.len() && replies[i] is Some ==> failures_spec(keys, replies).contains(
                DeleteFailureView { key: keys[i], reason: #[trigger] replies[i]->0 },
            ),
    decreases replies.len(),
{
    if replies.len() > 0 {
        let front = replies.drop_last();
        lemma_failures_are_the_failed_keys(keys, front);
        let all = failures_spec(keys, replies);
        let earlier = failures_spec(keys, front);
        assert forall|i: int| 0 <= i < replies.len() && replies[i] is Some implies all.contains(
            DeleteFailureView { key: keys[i], reason: #[trigger] replies[i]->0 },
        ) by {
            let failure = DeleteFailureView { key: keys[i], reason: replies[i]->0 };
            if i < front.len() {
                assert(front[i] == replies[i]);
                assert(earlier.contains(failure));
                let at = choose|k: int| 0 <= k < earlier.len() && earlier[k] == failure;
                assert(all[at] == failure);
            } else {
                assert(all[all.len() - 1] == failure);
            }
        }
        if forall|i: int| 0 <= i < replies.len() ==> replies[i] is None {
            assert forall|i: int| 0 <= i < front.len() implies front[i] is None by {
                assert(front[i] == replies[i]);
            }
        }
    }
}

/// A deletion of no keys reports zero deletions, and one whose every
/// key is deleted reports as many deletions as it has keys.
pub proof fn lemma_delete_without_failure(
    result: Result<String, CommandError>,
    keys: Seq<Seq<char>>,
    replies: Seq<DeleteReply>,
)
    requires
        is_delete_result(result, keys, replies),
        replies.len() == keys.len(),
        forall|i: int| 0 <= i < replies.len() ==> replies[i] is None,
    ensures
        result matches Ok(text) && text@ == delete_success_text(keys.len()),
{
    lemma_failures_are_the_failed_keys(keys, replies);
}

/// A deletion in which a key failed ends as a failure whose text tells
/// how many objects were deleted and holds the line of the failed key.
pub proof fn lemma_delete_with_failure(
    result: Result<String, CommandError>,
    keys: Seq<Seq<char>>,
    replies: Seq<DeleteReply>,
    i: int,
)
    requires
        is_delete_result(result, keys, replies),
        0 <= i < replies.len(),
        replies[i] is Some,
    ensures
        result matches Err(e) && contains_spec(
            e.message_spec(),
            "Deleted "@ + decimal_spec(deleted_count(replies)) + " objects"@,
        ) && contains_spec(e.message_spec(), delete_failure_line(keys[i], replies[i]->0)),
{
    lemma_failures_are_the_failed_keys(keys, replies);
    let failures = failures_spec(keys, replies);
    let failure = DeleteFailureView { key: keys[i], reason: replies[i]->0 };
    assert(failures.contains(failure));
    let at = choose|k: int| 0 <= k < failures.len() && failures[k] == failure;
    lemma_partial_delete_text_tells_all(deleted_count(replies), failures, at);
}

fn delete_result(deleted: usize, failures: Vec<DeleteFailure>) -> (res: Result<
    String,
    CommandError,
>)
    ensures
        is_delete_summary(res, deleted as nat, failure_views(failures@)),
{
    if failures.len() == 0 {
        let mut text = prefixed("Successfully deleted ", decimal(deleted as u64).as_str());
        text.append(" objects");
        Ok(text)
    } else {
        Err(CommandError::PartialDelete { deleted, failures })
    }
}

/// Starts a bulk deletion once the client has been built, or has not:
/// without a client nothing is deleted and the builder's text is the
/// failure. With one, the first key is up; a request without keys is
/// done at once.
pub fn delete_objects(request: DeleteObjectsRequest, client: Result<(), String>) -> (res:
    DeleteStep)
    ensures
        match client {
            Ok(_) => is_delete_step(
                res,
                request.bucket_name@,
                key_views(request.object_keys@),
                Seq::empty(),
            ),
            Err(raw) => res matches DeleteStep::Done(
                Err(CommandError::ClientConstruction(text)),
            ) && text@ == raw@,
        },
{
    match client {
        Err(raw) => DeleteStep::Done(Err(CommandError::ClientConstruction(raw))),
        Ok(_) => {
            let run = DeleteRun {
                bucket: request.bucket_name,
                keys: request.object_keys,
                deleted: 0,
                failures: Vec::new(),
                replies: Ghost(Seq::empty()),
            };
            assert(failure_views(run.failures@) =~= failures_spec(
                key_views(run.keys@),
                Seq::empty(),
            ));
            run.next_step()
        },
    }
}

impl DeleteRun {
    fn next_step(self) -> (res: DeleteStep)
        requires
            self.replies@.len() <= self.keys@.len(),
            self.deleted == deleted_count(self.replies@),
            failure_views(self.failures@) == failures_spec(key_views(self.keys@), self.replies@),
        ensures
            is_delete_step(res, self.bucket@, key_views(self.keys@), self.replies@),
    {
        proof {
            lemma_replies_are_counted(key_views(self.keys@), self.replies@);
            assert(failure_views(self.failures@).len() == self.failures@.len());
        }
        let count = self.keys.len();
        let next = self.deleted + self.failures.len();
        if next < count {
            let call = DeleteObjectCall {
                bucket: self.bucket.clone(),
                key: self.keys[next].clone(),
            };
            DeleteStep::Call { run: self, call }
        } else {
            DeleteStep::Done(delete_result(self.deleted, self.failures))
        }
    }

    /// Takes in the outcome of the pending call and tells what is next:
    /// the call for the following key, or the result after the last.
    pub fn advance(self, outcome: Result<(), String>) -> (res: DeleteStep)
        requires
            self.wf(),
        ensures
            is_delete_step(res, self.bucket(), self.keys(), self.replies().push(reply_of(outcome))),
    {
        proof {
            lemma_replies_are_counted(key_views(self.keys@), self.replies@);
            assert(failure_views(self.failures@).len() == self.failures@.len());
        }
        let ghost replies = self.replies@.push(reply_of(outcome));
        assert(replies.drop_last() =~= self.replies@);
        assert(self.keys@.len() == self.keys.len());
        let next = self.deleted + self.failures.len();
        let mut run = self;
        match outcome {
            Ok(_) => {
                run.deleted = run.deleted + 1;
            },
            Err(reason) => {
                let failure = DeleteFailure { key: run.keys[next].clone(), reason };
                run.failures.push(failure);
                assert(failure_views(run.failures@) =~= failures_spec(
                    key_views(run.keys@),
                    replies,
                ));
            },
        }
        run.replies = Ghost(replies);
        run.next_step()
    }
}

/// Prepares the presigning of a download address: the validity is the
/// requested one, or an hour, and is granted for up to a week. The
/// signing configuration of the call is built for that validity.
pub fn presign_call(request: &GetPresignedUrlRequest) -> (res: Result<
    PresignGetCall,
    CommandError,
>)
    ensures
        res is Ok <==> expiry_seconds_spec(request.expires_in_seconds) <= LONGEST_EXPIRY_SECONDS,
        res matches Ok(call) ==> call.bucket@ == request.bucket_name@ && call.key@
            == request.object_key@ && call.expires_in_seconds == expiry_seconds_spec(
            request.expires_in_seconds,
        ) && config_validity(call.config) == expiry_seconds_spec(request.expires_in_seconds),
        res matches Err(e) ==> e matches CommandError::PresigningConfig(text) && text@
            == too_long_text(),
{
    let seconds = expiry_seconds(request.expires_in_seconds);
    match presigning_config(seconds) {
        Ok(config) => Ok(
            PresignGetCall {
                bucket: request.bucket_name.clone(),
                key: request.object_key.clone(),
                expires_in_seconds: seconds,
                config,
            },
        ),
        Err(e) => Err(e),
    }
}

/// Concludes the presigning of a download address.
pub fn get_presigned_url(outcome: CallOutcome<String>) -> (res: Result<String, CommandError>)
    ensures
        match outcome {
            CallOutcome::Returned(url) => res matches Ok(text) && text@ == url@,
            CallOutcome::Failed(raw) => res matches Err(CommandError::PresignedUrl(text)) && text@
                == raw@,
            CallOutcome::NoClient(raw) => res matches Err(CommandError::ClientConstruction(text))
                && text@ == raw@,
        },
{
    match outcome {
        CallOutcome::Returned(url) => Ok(url),
        CallOutcome::Failed(raw) => Err(CommandError::PresignedUrl(raw)),
        CallOutcome::NoClient(raw) => Err(CommandError::ClientConstruction(raw)),
    }
}

} // verus!
