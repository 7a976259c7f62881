//! Uploading one file, a buffer of bytes, or a batch of picked files.

use crate::error::CommandError;
use crate::models::s3::{
    copy_text,
    text_of,
    S3Config,
    S3ConfigView,
    UploadFileBytesRequest,
    UploadFileRequest,
    UploadFileRequestView,
};
use crate::services::storage::{CallOutcome, PutObjectCall};
use crate::utils::content_type::{content_type_spec, guess_content_type};
use crate::utils::text::{decimal, decimal_spec, prefixed};
use vstd::prelude::*;

verus! {

/// The text that reports the upload of the file stored under `key`.
pub open spec fn file_uploaded_text(key: Seq<char>, size: nat, bucket: Seq<char>) -> Seq<char> {
    "Successfully uploaded file '"@ + key + "' ("@ + decimal_spec(size) + " bytes) to "@ + bucket
}

/// The text that reports the upload of the buffer called `file_name`.
pub open spec fn bytes_uploaded_text(file_name: Seq<char>, size: nat, bucket: Seq<char>) -> Seq<
    char,
> {
    "Successfully uploaded '"@ + file_name + "' ("@ + decimal_spec(size) + " bytes) to "@ + bucket
}

fn uploaded_text(opening: &str, label: &str, size: usize, bucket: &str) -> (res: String)
    ensures
        res@ == opening@ + label@ + "' ("@ + decimal_spec(size as nat) + " bytes) to "@ + bucket@,
{
    let mut text = prefixed(opening, label);
    text.append("' (");
    text.append(decimal(size as u64).as_str());
    text.append(" bytes) to ");
    text.append(bucket);
    text
}

/// An upload of a file that has been read and handed over for sending.
#[derive(Debug)]
pub struct FileUpload {
    pub call: PutObjectCall,
    /// The number of bytes read from the file.
    pub size: usize,
}

/// Prepares the upload of a file from what reading it gave: the whole
/// content goes out as one object, with the content type of the request
/// where it names one, and its length is noted for the report. A file
/// that could not be read is not uploaded.
pub fn upload_file_call(request: &UploadFileRequest, content: Result<Vec<u8>, String>) -> (res:
    Result<FileUpload, CommandError>)
    ensures
        match content {
            Ok(bytes) => res matches Ok(upload) && upload.call.bucket@ == request.bucket_name@
                && upload.call.key@ == request.object_key@ && upload.call.body@ == bytes@
                && text_of(upload.call.content_type) == text_of(request.content_type)
                && upload.size == bytes@.len(),
            Err(raw) => res matches Err(CommandError::ReadFile(text)) && text@ == raw@,
        },
{
    match content {
        Ok(bytes) => {
            let size = bytes.len();
            Ok(
                FileUpload {
                    call: PutObjectCall {
                        bucket: request.bucket_name.clone(),
                        key: request.object_key.clone(),
                        body: bytes,
                        content_type: copy_text(&request.content_type),
                    },
                    size,
                },
            )
        },
        Err(raw) => Err(CommandError::ReadFile(raw)),
    }
}

/// Concludes the upload of a file of `size` bytes.
pub fn upload_file(request: &UploadFileRequest, size: usize, outcome: CallOutcome<()>) -> (res:
    Result<String, CommandError>)
    ensures
        match outcome {
            CallOutcome::Returned(_) => res matches Ok(text) && text@ == file_uploaded_text(
                request.object_key@,
                size as nat,
                request.bucket_name@,
            ),
            CallOutcome::Failed(raw) => res matches Err(CommandError::Upload(text)) && text@
                == raw@,
            CallOutcome::NoClient(raw) => res matches Err(CommandError::ClientConstruction(text))
                && text@ == raw@,
        },
{
    match outcome {
        CallOutcome::Returned(_) => Ok(
            uploaded_text(
                "Successfully uploaded file '",
                request.object_key.as_str(),
                size,
                request.bucket_name.as_str(),
            ),
        ),
        CallOutcome::Failed(raw) => Err(CommandError::Upload(raw)),
        CallOutcome::NoClient(raw) => Err(CommandError::ClientConstruction(raw)),
    }
}

/// An upload of a buffer that has been handed over for sending.
#[derive(Debug)]
pub struct BytesUpload {
    pub call: PutObjectCall,
    pub file_name: String,
    pub bucket_name: String,
    /// The number of bytes handed over.
    pub size: usize,
}

/// Prepares the upload of a buffer: all of it goes out as one object,
/// always with the content type of the request.
pub fn upload_bytes_call(request: UploadFileBytesRequest) -> (res: BytesUpload)
    ensures
        res.call.bucket@ == request.bucket_name@,
        res.call.key@ == request.object_key@,
        res.call.body@ == request.file_bytes@,
        text_of(res.call.content_type) == Some(request.content_type@),
        res.file_name@ == request.file_name@,
        res.bucket_name@ == request.bucket_name@,
        res.size == request.file_bytes@.len(),
{
    let size = request.file_bytes.len();
    BytesUpload {
        call: PutObjectCall {
            bucket: request.bucket_name.clone(),
            key: request.object_key,
            body: request.file_bytes,
            content_type: Some(request.content_type),
        },
        file_name: request.file_name,
        bucket_name: request.bucket_name,
        size,
    }
}

/// Concludes the upload of a buffer of `size` bytes called `file_name`.
pub fn upload_file_from_bytes(
    file_name: &str,
    size: usize,
    bucket_name: &str,
    outcome: CallOutcome<()>,
) -> (res: Result<String, CommandError>)
    ensures
        match outcome {
            CallOutcome::Returned(_) => res matches Ok(text) && text@ == bytes_uploaded_text(
                file_name@,
                size as nat,
                bucket_name@,
            ),
            CallOutcome::Failed(raw) => res matches Err(CommandError::Upload(text)) && text@
                == raw@,
            CallOutcome::NoClient(raw) => res matches Err(CommandError::ClientConstruction(text))
                && text@ == raw@,
        },
{
    match outcome {
        CallOutcome::Returned(_) => Ok(
            uploaded_text("Successfully uploaded '", file_name, size, bucket_name),
        ),
        CallOutcome::Failed(raw) => Err(CommandError::Upload(raw)),
        CallOutcome::NoClient(raw) => Err(CommandError::ClientConstruction(raw)),
    }
}

/// A named group of file extensions that the file picker offers.
#[derive(Debug)]
pub struct DialogFilter {
    pub name: &'static str,
    pub extensions: Vec<&'static str>,
}

/// A filter group as characters: its name and its extensions.
pub struct DialogFilterView {
    pub name: Seq<char>,
    pub extensions: Seq<Seq<char>>,
}

impl View for DialogFilter {
    type V = DialogFilterView;

    open spec fn view(&self) -> DialogFilterView {
        DialogFilterView {
            name: self.name@,
            extensions: Seq::new(self.extensions@.len(), |i: int| self.extensions@[i]@),
        }
    }
}

/// The title of the file picker.
pub open spec fn dialog_title_spec() -> Seq<char> {
    "选择要上传的文件"@
}

/// The filter groups of the file picker, in the order in which they are
/// offered: every file first, then the kinds of file by extension.
pub open spec fn dialog_filters_spec() -> Seq<DialogFilterView> {
    seq![
        DialogFilterView { name: "All files"@, extensions: seq!["*"@] },
        DialogFilterView {
            name: "Image files"@,
            extensions: seq![
                "jpg"@,
                "jpeg"@,
                "png"@,
                "gif"@,
                "webp"@,
                "svg"@,
                "bmp"@,
                "ico"@,
            ],
        },
        DialogFilterView {
            name: "Document files"@,
            extensions: seq!["pdf"@, "doc"@, "docx"@, "xls"@, "xlsx"@, "ppt"@, "pptx"@],
        },
        DialogFilterView {
            name: "Text files"@,
            extensions: seq![
                "txt"@,
                "md"@,
                "html"@,
                "htm"@,
                "css"@,
                "js"@,
                "json"@,
                "xml"@,
                "csv"@,
            ],
        },
        DialogFilterView {
            name: "Audio files"@,
            extensions: seq!["mp3"@, "wav"@, "ogg"@, "flac"@],
        },
        DialogFilterView {
            name: "Video files"@,
            extensions: seq!["mp4"@, "avi"@, "mov"@, "wmv"@, "flv"@, "webm"@],
        },
        DialogFilterView {
            name: "Archive files"@,
            extensions: seq!["zip"@, "rar"@, "7z"@, "tar"@, "gz"@],
        },
    ]
}

/// The title of the file picker.
pub fn upload_dialog_title() -> (res: &'static str)
    ensures
        res@ == dialog_title_spec(),
{
    "选择要上传的文件"
}

fn filter(name: &'static str, extensions: Vec<&'static str>) -> (res: DialogFilter)
    ensures
        res.name == name,
        res.extensions == extensions,
{
    DialogFilter { name, extensions }
}

/// The filter groups that the file picker offers.
pub fn upload_dialog_filters() -> (res: Vec<DialogFilter>)
    ensures
        res@.len() == dialog_filters_spec().len(),
        forall|i: int| 0 <= i < res@.len() ==> (#[trigger] res@[i])@ == dialog_filters_spec()[i],
{
    let mut filters: Vec<DialogFilter> = Vec::new();
    filters.push(filter("All files", vec!["*"]));
    assert(filters@[0]@.extensions =~= dialog_filters_spec()[0].extensions);
    filters.push(
        filter("Image files", vec!["jpg", "jpeg", "png", "gif", "webp", "svg", "bmp", "ico"]),
    );
    assert(filters@[1]@.extensions =~= dialog_filters_spec()[1].extensions);
    filters.push(
        filter("Document files", vec!["pdf", "doc", "docx", "xls", "xlsx", "ppt", "pptx"]),
    );
    assert(filters@[2]@.extensions =~= dialog_filters_spec()[2].extensions);
    filters.push(
        filter(
            "Text files",
            vec!["txt", "md", "html", "htm", "css", "js", "json", "xml", "csv"],
        ),
    );
    assert(filters@[3]@.extensions =~= dialog_filters_spec()[3].extensions);
    filters.push(filter("Audio files", vec!["mp3", "wav", "ogg", "flac"]));
    assert(filters@[4]@.extensions =~= dialog_filters_spec()[4].extensions);
    filters.push(filter("Video files", vec!["mp4", "avi", "mov", "wmv", "flv", "webm"]));
    assert(filters@[5]@.extensions =~= dialog_filters_spec()[5].extensions);
    filters.push(filter("Archive files", vec!["zip", "rar", "7z", "tar", "gz"]));
    assert(filters@[6]@.extensions =~= dialog_filters_spec()[6].extensions);
    filters
}

/// One entry of what the file picker handed back.
#[derive(Debug)]
pub enum PickedFile {
    /// The entry is no path of the local file system; `shown` is the
    /// entry as it is displayed.
    NotAPath { shown: String },
    /// The path, given as it is displayed, has no last component that
    /// can be written as text.
    Nameless { path: String },
    /// A file: its path as it is displayed, and its name.
    File { path: String, name: String },
}

/// What came of one entry of a batch: the report of its upload, or the
/// text of its failure.
pub type UploadResult = Result<Seq<char>, Seq<char>>;

/// The result that the outcome of an upload stands for.
pub open spec fn result_of(outcome: Result<String, CommandError>) -> UploadResult {
    match outcome {
        Ok(message) => Ok(message@),
        Err(error) => Err(error.message_spec()),
    }
}

/// The name under which an entry is reported: a file's name, and of an
/// entry that is no file with a name, what there is to show of it.
pub open spec fn name_of(file: PickedFile) -> Seq<char> {
    match file {
        PickedFile::NotAPath { shown } => shown@,
        PickedFile::Nameless { path } => path@,
        PickedFile::File { name, .. } => name@,
    }
}

/// Why an entry cannot be uploaded at all; nothing for a file with a
/// name.
pub open spec fn own_failure(file: PickedFile) -> Option<Seq<char>> {
    match file {
        PickedFile::NotAPath { .. } => Some(CommandError::InvalidPath.message_spec()),
        PickedFile::Nameless { .. } => Some(CommandError::MissingFileName.message_spec()),
        PickedFile::File { .. } => None,
    }
}

/// The results once every entry that cannot be uploaded and comes next
/// has been given its failure: what follows `results` is then a file
/// with a name, or nothing.
pub open spec fn settled(files: Seq<PickedFile>, results: Seq<UploadResult>) -> Seq<UploadResult>
    decreases files.len() - results.len(),
{
    if results.len() >= files.len() {
        results
    } else {
        match own_failure(files[results.len() as int]) {
            Some(text) => settled(files, results.push(Err(text))),
            None => results,
        }
    }
}

/// The key under which a file called `name` is stored: the name behind
/// the prefix, where there is one.
pub open spec fn object_key_spec(prefix: Option<Seq<char>>, name: Seq<char>) -> Seq<char> {
    match prefix {
        Some(p) => p + name,
        None => name,
    }
}

/// The report line of an upload that succeeded with `message`.
pub open spec fn success_line(message: Seq<char>) -> Seq<char> {
    "✓ "@ + message
}

/// The report line of the entry `name` that failed with `error`.
pub open spec fn failure_line(name: Seq<char>, error: Seq<char>) -> Seq<char> {
    "✗ 上传 '"@ + name + "' 失败: "@ + error
}

/// The first line of a report on `count` uploads that succeeded.
pub open spec fn summary_line(count: nat) -> Seq<char> {
    "Upload complete: "@ + decimal_spec(count) + " files succeeded"@
}

/// The lines of the uploads that succeeded, in the order of the files.
pub open spec fn success_lines(results: Seq<UploadResult>) -> Seq<Seq<char>>
    decreases results.len(),
{
    if results.len() == 0 {
        Seq::empty()
    } else {
        let earlier = success_lines(results.drop_last());
        match results.last() {
            Ok(message) => earlier.push(success_line(message)),
            Err(_) => earlier,
        }
    }
}

/// The lines of the entries that failed, in the order of the files. The
/// result at a position is that of the entry at that position.
pub open spec fn failure_lines(files: Seq<PickedFile>, results: Seq<UploadResult>) -> Seq<
    Seq<char>,
>
    decreases results.len(),
{
    if results.len() == 0 {
        Seq::empty()
    } else {
        let earlier = failure_lines(files, results.drop_last());
        match results.last() {
            Ok(_) => earlier,
            Err(error) => earlier.push(failure_line(name_of(files[results.len() - 1]), error)),
        }
    }
}

/// The report on a batch: how many uploads succeeded, their lines, and,
/// only where an entry failed, a marker line and the lines of those
/// that failed.
pub open spec fn report_spec(files: Seq<PickedFile>, results: Seq<UploadResult>) -> Seq<
    Seq<char>,
> {
    let succeeded = success_lines(results);
    let failed = failure_lines(files, results);
    let head = seq![summary_line(succeeded.len())] + succeeded;
    if failed.len() == 0 {
        head
    } else {
        head + seq!["Errors:"@] + failed
    }
}

/// The request that uploads a picked file called `name` from `path`.
pub open spec fn request_spec(
    config: S3ConfigView,
    bucket_name: Seq<char>,
    prefix: Option<Seq<char>>,
    path: Seq<char>,
    name: Seq<char>,
) -> UploadFileRequestView {
    UploadFileRequestView {
        config,
        bucket_name,
        object_key: object_key_spec(prefix, name),
        file_path: path,
        content_type: Some(content_type_spec(name)),
    }
}

/// The lines of `lines`, as characters.
pub open spec fn line_views(lines: Seq<String>) -> Seq<Seq<char>> {
    Seq::new(lines.len(), |i: int| lines[i]@)
}

/// The upload of a batch of picked files under way: a file is up for
/// upload. The entries are taken one by one, in the order in which they
/// were picked.
pub struct BatchUpload {
    config: S3Config,
    bucket_name: String,
    prefix: Option<String>,
    files: Vec<PickedFile>,
    succeeded: Vec<String>,
    failed: Vec<String>,
    results: Ghost<Seq<UploadResult>>,
}

/// What the upload of a batch does next.
pub enum BatchStep {
    /// Carry out this upload and hand its outcome to the run.
    Upload { run: BatchUpload, request: UploadFileRequest },
    /// The batch is over; these are the lines of its report. A batch
    /// never fails as a whole: what fails has its line in the report.
    Done(Vec<String>),
}

impl BatchUpload {
    /// The configuration every upload of the batch is made with.
    pub closed spec fn config(&self) -> S3ConfigView {
        self.config@
    }

    /// The bucket the files go to.
    pub closed spec fn bucket_name(&self) -> Seq<char> {
        self.bucket_name@
    }

    /// What is put before each file's name to make its key.
    pub closed spec fn prefix(&self) -> Option<Seq<char>> {
        text_of(self.prefix)
    }

    /// The picked entries.
    pub closed spec fn files(&self) -> Seq<PickedFile> {
        self.files@
    }

    /// The results so far: one for each entry already dealt with.
    pub closed spec fn results(&self) -> Seq<UploadResult> {
        self.results@
    }

    /// The run holds the lines of the results so far, and the entry that
    /// comes next is a file with a name.
    pub closed spec fn wf(&self) -> bool {
        &&& self.results@.len() < self.files@.len()
        &&& self.files@[self.results@.len() as int] is File
        &&& line_views(self.succeeded@) == success_lines(self.results@)
        &&& line_views(self.failed@) == failure_lines(self.files@, self.results@)
    }
}

/// Whether `step` is the step of a batch that has the given results:
/// the upload of the file that comes next, or the report once every
/// entry has a result.
pub open spec fn is_batch_step(
    step: BatchStep,
    config: S3ConfigView,
    bucket_name: Seq<char>,
    prefix: Option<Seq<char>>,
    files: Seq<PickedFile>,
    results: Seq<UploadResult>,
) -> bool {
    if results.len() < files.len() {
        match files[results.len() as int] {
            PickedFile::File { path, name } => {
                &&& step matches BatchStep::Upload { run, request }
                &&& run.wf()
                &&& run.config() == config
                &&& run.bucket_name() == bucket_name
                &&& run.prefix() == prefix
                &&& run.files() == files
                &&& run.results() == results
                &&& request@ == request_spec(config, bucket_name, prefix, path@, name@)
            },
            _ => false,
        }
    } else {
        step matches BatchStep::Done(lines) && line_views(lines@) == report_spec(files, results)
    }
}

/// Every result has its line: the lines of the uploads that succeeded
/// and of the entries that failed are together as many as the results.
pub proof fn lemma_every_result_has_a_line(files: Seq<PickedFile>, results: Seq<UploadResult>)
    ensures
        success_lines(results).len() + failure_lines(files, results).len() == results.len(),
    decreases results.len(),
{
    if results.len() > 0 {
        lemma_every_result_has_a_line(files, results.drop_last());
    }
}

/// A report opens with the count of the uploads that succeeded. It holds
/// the marker line exactly where an entry failed, and that line then
/// stands between the lines of the two groups.
pub proof fn lemma_report_shape(files: Seq<PickedFile>, results: Seq<UploadResult>)
    ensures
        report_spec(files, results).len() >= 1,
        report_spec(files, results)[0] == summary_line(success_lines(results).len()),
        failure_lines(files, results).len() == 0 ==> report_spec(files, results).len() == 1
            + success_lines(results).len(),
        failure_lines(files, results).len() > 0 ==> report_spec(files, results).len()
            == results.len() + 2 && report_spec(files, results)[success_lines(results).len() as int
            + 1] == "Errors:"@,
{
    lemma_every_result_has_a_line(files, results);
}

/// Settling keeps the results it is given and adds only failures: it
/// gives no entry a result that is not its own, and it stops at a file
/// with a name or at the end.
pub proof fn lemma_settled_extends(files: Seq<PickedFile>, results: Seq<UploadResult>)
    requires
        results.len() <= files.len(),
    ensures
        results.len() <= settled(files, results).len() <= files.len(),
        settled(files, results).subrange(0, results.len() as int) == results,
        forall|i: int|
            results.len() <= i < settled(files, results).len() ==> own_failure(files[i]) is Some
                && #[trigger] settled(files, results)[i] == Err::<Seq<char>, Seq<char>>(
                own_failure(files[i])->0,
            ),
        settled(files, results).len() < files.len() ==> files[settled(
            files,
            results,
        ).len() as int] is File,
    decreases files.len() - results.len(),
{
    if results.len() < files.len() {
        match own_failure(files[results.len() as int]) {
            Some(text) => {
                let more = results.push(Err(text));
                lemma_settled_extends(files, more);
                let all = settled(files, more);
                assert(all.subrange(0, results.len() as int) =~= all.subrange(
                    0,
                    more.len() as int,
                ).subrange(0, results.len() as int));
                assert(more.subrange(0, results.len() as int) =~= results);
                assert forall|i: int| results.len() <= i < all.len() implies own_failure(
                    files[i],
                ) is Some && #[trigger] all[i] == Err::<Seq<char>, Seq<char>>(
                    own_failure(files[i])->0,
                ) by {
                    if i == results.len() {
                        assert(all.subrange(0, more.len() as int)[i] == more[i]);
                    }
                }
            },
            None => {
                assert(results.subrange(0, results.len() as int) =~= results);
            },
        }
    } else {
        assert(results.subrange(0, results.len() as int) =~= results);
    }
}

fn report(succeeded: Vec<String>, failed: Vec<String>) -> (res: Vec<String>)
    ensures
        line_views(res@) == {
            let head = seq![summary_line(succeeded@.len())] + line_views(succeeded@);
            if failed@.len() == 0 {
                head
            } else {
                head + seq!["Errors:"@] + line_views(failed@)
            }
        },
{
    let mut succeeded = succeeded;
    let mut failed = failed;
    let ghost first = line_views(succeeded@);
    let ghost second = line_views(failed@);
    let mut summary = prefixed("Upload complete: ", decimal(succeeded.len() as u64).as_str());
    summary.append(" files succeeded");
    let mut lines: Vec<String> = Vec::new();
    lines.push(summary);
    lines.append(&mut succeeded);
    assert(line_views(lines@) =~= seq![summary_line(first.len())] + first);
    if failed.len() > 0 {
        lines.push("Errors:".to_string());
        lines.append(&mut failed);
        assert(line_views(lines@) =~= seq![summary_line(first.len())] + first + seq!["Errors:"@]
            + second);
    }
    lines
}

fn shown_name(file: &PickedFile) -> (res: &str)
    ensures
        res@ == name_of(*file),
{
    match file {
        PickedFile::NotAPath { shown } => shown.as_str(),
        PickedFile::Nameless { path } => path.as_str(),
        PickedFile::File { name, .. } => name.as_str(),
    }
}

fn failure_line_of(file: &PickedFile, error: &CommandError) -> (res: String)
    ensures
        res@ == failure_line(name_of(*file), error.message_spec()),
{
    let mut line = prefixed("✗ 上传 '", shown_name(file));
    line.append("' 失败: ");
    line.append(error.message().as_str());
    line
}

/// The failure line of an entry that cannot be uploaded at all.
fn unusable_line(file: &PickedFile) -> (res: String)
    requires
        own_failure(*file) is Some,
    ensures
        res@ == failure_line(name_of(*file), own_failure(*file)->0),
{
    let error = match file {
        PickedFile::NotAPath { .. } => CommandError::InvalidPath,
        _ => CommandError::MissingFileName,
    };
    failure_line_of(file, &error)
}

/// Starts the upload of what the file picker handed back. A picker that
/// was dismissed leaves nothing to upload, which is no failure: the
/// report is empty. An entry that is no file with a name is not
/// uploaded and gets the line of its failure.
pub fn upload_files_with_dialog(
    config: S3Config,
    bucket_name: String,
    prefix: Option<String>,
    picked: Option<Vec<PickedFile>>,
) -> (res: BatchStep)
    ensures
        match picked {
            Some(files) => is_batch_step(
                res,
                config@,
                bucket_name@,
                text_of(prefix),
                files@,
                settled(files@, Seq::empty()),
            ),
            None => res matches BatchStep::Done(lines) && lines@.len() == 0,
        },
{
    match picked {
        None => BatchStep::Done(Vec::new()),
        Some(files) => {
            let run = BatchUpload {
                config,
                bucket_name,
                prefix,
                files,
                succeeded: Vec::new(),
                failed: Vec::new(),
                results: Ghost(Seq::empty()),
            };
            assert(line_views(run.succeeded@) =~= success_lines(run.results@));
            assert(line_views(run.failed@) =~= failure_lines(run.files@, run.results@));
            run.next_step()
        },
    }
}

impl BatchUpload {
    fn next_step(self) -> (res: BatchStep)
        requires
            self.results@.len() <= self.files@.len(),
            line_views(self.succeeded@) == success_lines(self.results@),
            line_views(self.failed@) == failure_lines(self.files@, self.results@),
        ensures
            is_batch_step(
                res,
                self.config@,
                self.bucket_name@,
                text_of(self.prefix),
                self.files@,
                settled(self.files@, self.results@),
            ),
    {
        let mut run = self;
        let count = run.files.len();
        proof {
            lemma_every_result_has_a_line(run.files@, run.results@);
            assert(line_views(run.succeeded@).len() == run.succeeded@.len());
            assert(line_views(run.failed@).len() == run.failed@.len());
        }
        let mut next = run.succeeded.len() + run.failed.len();
        while next < count
            invariant
                count == run.files@.len(),
                next == run.results@.len(),
                next <= count,
                run.config == self.config,
                run.bucket_name == self.bucket_name,
                run.prefix == self.prefix,
                run.files == self.files,
                line_views(run.succeeded@) == success_lines(run.results@),
                line_views(run.failed@) == failure_lines(run.files@, run.results@),
                settled(run.files@, run.results@) == settled(self.files@, self.results@),
            decreases count - next,
        {
            match run.request_at(next) {
                Some(request) => {
                    return BatchStep::Upload { run, request };
                },
                None => {
                    let ghost results = run.results@.push(
                        Err(own_failure(run.files@[next as int])->0),
                    );
                    assert(results.drop_last() =~= run.results@);
                    let line = unusable_line(&run.files[next]);
                    run.failed.push(line);
                    assert(line_views(run.failed@) =~= failure_lines(run.files@, results));
                    assert(success_lines(results) == success_lines(run.results@));
                    run.results = Ghost(results);
                    next += 1;
                },
            }
        }
        BatchStep::Done(report(run.succeeded, run.failed))
    }

    /// The request for the entry at `next`, where it is a file.
    fn request_at(&self, next: usize) -> (res: Option<UploadFileRequest>)
        requires
            next < self.files@.len(),
        ensures
            match self.files@[next as int] {
                PickedFile::File { path, name } => res matches Some(request) && request@
                    == request_spec(
                    self.config@,
                    self.bucket_name@,
                    text_of(self.prefix),
                    path@,
                    name@,
                ),
                _ => res is None,
            },
    {
        match &self.files[next] {
            PickedFile::File { path, name } => {
                let object_key = match &self.prefix {
                    Some(p) => prefixed(p.as_str(), name.as_str()),
                    None => name.clone(),
                };
                Some(
                    UploadFileRequest {
                        config: self.config.clone(),
                        bucket_name: self.bucket_name.clone(),
                        object_key,
                        file_path: path.clone(),
                        content_type: Some(guess_content_type(name.as_str())),
                    },
                )
            },
            _ => None,
        }
    }

    /// Takes in the outcome of the pending upload and tells what is
    /// next. A failed upload does not end the batch: it gets its line in
    /// the report.
    pub fn advance(self, outcome: Result<String, CommandError>) -> (res: BatchStep)
        requires
            self.wf(),
        ensures
            is_batch_step(
                res,
                self.config(),
                self.bucket_name(),
                self.prefix(),
                self.files(),
                settled(self.files(), self.results().push(result_of(outcome))),
            ),
    {
        proof {
            lemma_every_result_has_a_line(self.files@, self.results@);
            assert(line_views(self.succeeded@).len() == self.succeeded@.len());
            assert(line_views(self.failed@).len() == self.failed@.len());
        }
        let ghost results = self.results@.push(result_of(outcome));
        assert(results.drop_last() =~= self.results@);
        assert(self.files@.len() == self.files.len());
        let next = self.succeeded.len() + self.failed.len();
        let mut run = self;
        match outcome {
            Ok(message) => {
                run.succeeded.push(prefixed("✓ ", message.as_str()));
                assert(line_views(run.succeeded@) =~= success_lines(results));
            },
            Err(error) => {
                let line = failure_line_of(&run.files[next], &error);
                run.failed.push(line);
                assert(line_views(run.failed@) =~= failure_lines(run.files@, results));
            },
        }
        run.results = Ghost(results);
        run.next_step()
    }
}

} // verus!
