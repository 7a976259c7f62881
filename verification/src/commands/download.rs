//! Downloading one object to a place the user picks.
//!
//! A download is a chain of stages. Each stage asks for one thing to be
//! done outside (a dialog, a request, a write) and, handed what came of
//! it, gives the next stage or the result.

use crate::error::CommandError;
use crate::models::s3::DownloadFileRequest;
use crate::services::http_status::{check_status, is_success_code, status_line};
use crate::services::presigning::{config_validity, presigning_config, DEFAULT_EXPIRY_SECONDS};
use crate::services::s3_client::{client_settings, settings_match, ClientSettings};
use crate::services::storage::PresignGetCall;
use vstd::prelude::*;

verus! {

/// What the save dialog handed back.
#[derive(Debug)]
pub enum SaveChoice {
    /// The dialog was dismissed.
    Cancelled,
    /// A location was chosen that is no path of the local file system.
    NotAPath,
    /// A path was chosen; the text is the path as it is displayed.
    Path(String),
}

/// The head of an HTTP response.
#[derive(Debug)]
pub struct HttpReply {
    /// The status code.
    pub status: u16,
}

/// Waiting for the user to choose where to save.
pub struct SavePathPending {
    pub request: DownloadFileRequest,
}

/// Waiting for the storage client.
pub struct ClientPending {
    pub bucket_name: String,
    pub object_key: String,
    pub target: Option<String>,
}

/// Waiting for the presigned address.
pub struct AddressPending {
    pub target: Option<String>,
}

/// Waiting for the response to the request for the object.
pub struct ResponsePending {
    pub target: Option<String>,
}

/// Waiting for the body of the response.
pub struct BodyPending {
    pub target: Option<String>,
}

/// Waiting for the file to be written.
pub struct WritePending {
    pub path: String,
}

/// What a download does next.
#[allow(inconsistent_fields)]
pub enum DownloadStep {
    /// Show the save dialog with this name filled in.
    AskSavePath { pending: SavePathPending, default_file_name: String },
    /// Build a storage client from these settings.
    BuildClient { pending: ClientPending, settings: ClientSettings },
    /// Have the download of the object presigned.
    Presign { pending: AddressPending, call: PresignGetCall },
    /// Request this address with a plain GET.
    Fetch { pending: ResponsePending, url: String },
    /// Read the whole body of the response.
    ReadBody { pending: BodyPending },
    /// Write these bytes to the chosen path.
    WriteFile { pending: WritePending, bytes: Vec<u8> },
    /// The download is over: the path it was saved to, or the failure.
    Done(Result<String, CommandError>),
}

/// The chosen path as characters, where a path was chosen.
pub open spec fn target_of(choice: SaveChoice) -> Option<Seq<char>> {
    match choice {
        SaveChoice::Path(path) => Some(path@),
        _ => None,
    }
}

/// The characters of an optional path.
pub open spec fn path_of(target: Option<String>) -> Option<Seq<char>> {
    match target {
        Some(path) => Some(path@),
        None => None,
    }
}

/// Starts a download: the user is asked where to save, with the name
/// that the request proposes.
pub fn download_file(request: DownloadFileRequest) -> (res: DownloadStep)
    ensures
        res matches DownloadStep::AskSavePath { pending, default_file_name } && pending.request
            == request && default_file_name@ == request.default_file_name@,
{
    let default_file_name = request.default_file_name.clone();
    DownloadStep::AskSavePath { pending: SavePathPending { request }, default_file_name }
}

impl SavePathPending {
    /// Takes in what the save dialog handed back. A dismissed dialog
    /// ends the download as a failure; any choice lets it go on to the
    /// storage client.
    pub fn chosen(self, choice: SaveChoice) -> (res: DownloadStep)
        ensures
            if choice is Cancelled {
                res matches DownloadStep::Done(Err(e)) && e == CommandError::SaveCancelled
            } else {
                &&& res matches DownloadStep::BuildClient { pending, settings }
                &&& settings_match(settings, self.request.config)
                &&& pending.bucket_name@ == self.request.bucket_name@
                &&& pending.object_key@ == self.request.object_key@
                &&& path_of(pending.target) == target_of(choice)
            },
    {
        let target = match choice {
            SaveChoice::Cancelled => {
                return DownloadStep::Done(Err(CommandError::SaveCancelled));
            },
            SaveChoice::NotAPath => None,
            SaveChoice::Path(path) => Some(path),
        };
        let settings = client_settings(&self.request.config);
        DownloadStep::BuildClient {
            pending: ClientPending {
                bucket_name: self.request.bucket_name,
                object_key: self.request.object_key,
                target,
            },
            settings,
        }
    }
}

impl ClientPending {
    /// Takes in whether the client was built. With a client, the
    /// download of the object is presigned for one hour, whatever the
    /// request says.
    pub fn built(self, client: Result<(), String>) -> (res: DownloadStep)
        ensures
            match client {
                Ok(_) => {
                    &&& res matches DownloadStep::Presign { pending, call }
                    &&& call.bucket@ == self.bucket_name@
                    &&& call.key@ == self.object_key@
                    &&& call.expires_in_seconds == DEFAULT_EXPIRY_SECONDS
                    &&& config_validity(call.config) == DEFAULT_EXPIRY_SECONDS
                    &&& path_of(pending.target) == path_of(self.target)
                },
                Err(raw) => res matches DownloadStep::Done(
                    Err(CommandError::ClientConstruction(text)),
                ) && text@ == raw@,
            },
    {
        match client {
            Err(raw) => DownloadStep::Done(Err(CommandError::ClientConstruction(raw))),
            Ok(_) => match presigning_config(DEFAULT_EXPIRY_SECONDS) {
                Ok(config) => DownloadStep::Presign {
                    pending: AddressPending { target: self.target },
                    call: PresignGetCall {
                        bucket: self.bucket_name,
                        key: self.object_key,
                        expires_in_seconds: DEFAULT_EXPIRY_SECONDS,
                        config,
                    },
                },
                Err(e) => DownloadStep::Done(Err(e)),
            },
        }
    }
}

impl AddressPending {
    /// Takes in the presigned address, which is then requested.
    pub fn presigned(self, outcome: Result<String, String>) -> (res: DownloadStep)
        ensures
            match outcome {
                Ok(address) => res matches DownloadStep::Fetch { pending, url } && url@
                    == address@ && path_of(pending.target) == path_of(self.target),
                Err(raw) => res matches DownloadStep::Done(Err(CommandError::PresignedUrl(text)))
                    && text@ == raw@,
            },
    {
        match outcome {
            Ok(url) => DownloadStep::Fetch {
                pending: ResponsePending { target: self.target },
                url,
            },
            Err(raw) => DownloadStep::Done(Err(CommandError::PresignedUrl(raw))),
        }
    }
}

impl ResponsePending {
    /// Takes in the response. Only a status of success lets the
    /// download go on to the body.
    pub fn answered(self, response: Result<HttpReply, String>) -> (res: DownloadStep)
        ensures
            match response {
                Ok(reply) => if is_success_code(reply.status) {
                    res matches DownloadStep::ReadBody { pending } && path_of(pending.target)
                        == path_of(self.target)
                } else {
                    res matches DownloadStep::Done(Err(CommandError::HttpStatus(text))) && text@
                        == status_line(reply.status)
                },
                Err(raw) => res matches DownloadStep::Done(Err(CommandError::Fetch(text)))
                    && text@ == raw@,
            },
    {
        match response {
            Ok(reply) => match check_status(reply.status) {
                Ok(_) => DownloadStep::ReadBody { pending: BodyPending { target: self.target } },
                Err(e) => DownloadStep::Done(Err(e)),
            },
            Err(raw) => DownloadStep::Done(Err(CommandError::Fetch(raw))),
        }
    }
}

impl BodyPending {
    /// Takes in the body. It is written in one piece, provided that
    /// what the user chose is a path.
    pub fn read(self, body: Result<Vec<u8>, String>) -> (res: DownloadStep)
        ensures
            match body {
                Ok(content) => match self.target {
                    Some(path) => res matches DownloadStep::WriteFile { pending, bytes }
                        && pending.path@ == path@ && bytes@ == content@,
                    None => res matches DownloadStep::Done(Err(e)) && e
                        == CommandError::InvalidPath,
                },
                Err(raw) => res matches DownloadStep::Done(Err(CommandError::ResponseBody(text)))
                    && text@ == raw@,
            },
    {
        match body {
            Ok(bytes) => match self.target {
                Some(path) => DownloadStep::WriteFile { pending: WritePending { path }, bytes },
                None => DownloadStep::Done(Err(CommandError::InvalidPath)),
            },
            Err(raw) => DownloadStep::Done(Err(CommandError::ResponseBody(raw))),
        }
    }
}

impl WritePending {
    /// Takes in whether the file was written, which ends the download.
    pub fn written(self, outcome: Result<(), String>) -> (res: DownloadStep)
        ensures
            match outcome {
                Ok(_) => res matches DownloadStep::Done(Ok(saved)) && saved@ == self.path@,
                Err(raw) => res matches DownloadStep::Done(Err(CommandError::WriteFile(text)))
                    && text@ == raw@,
            },
    {
        match outcome {
            Ok(_) => DownloadStep::Done(Ok(self.path)),
            Err(raw) => DownloadStep::Done(Err(CommandError::WriteFile(raw))),
        }
    }
}

} // verus!
