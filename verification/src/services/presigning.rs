//! Validity periods of presigned addresses.

use crate::error::CommandError;
use aws_sdk_s3::presigning::PresigningConfig;
use vstd::prelude::*;

verus! {

/// The validity of a presigned address where the request names none.
pub const DEFAULT_EXPIRY_SECONDS: u64 = 3600;

/// The longest validity the signing library grants: one week.
pub const LONGEST_EXPIRY_SECONDS: u64 = 604800;

#[verifier::external_type_specification]
#[verifier::external_body]
pub struct ExPresigningConfig(PresigningConfig);

/// The validity that a presigning configuration was built for, in whole
/// seconds: what its `expires()` gives. Besides the validity such a
/// value holds the time at which it was built, of which nothing is said.
pub uninterp spec fn config_validity(config: PresigningConfig) -> u64;

/// The validity in seconds that a request asks for.
pub open spec fn expiry_seconds_spec(requested: Option<u64>) -> u64 {
    match requested {
        Some(seconds) => seconds,
        None => DEFAULT_EXPIRY_SECONDS,
    }
}

/// The text with which the signing library turns down a validity of more
/// than a week.
pub open spec fn too_long_text() -> Seq<char> {
    "`expires_in` must be no longer than one week"@
}

/// Calls `PresigningConfig::expires_in` of `aws-sdk-s3` with a duration
/// of `seconds` whole seconds, and renders the error it may give through
/// its `Display` impl. Trusted: the call succeeds exactly for a duration
/// of at most one week; the configuration it builds keeps the duration
/// as it was given; and the one error that can arise on this path, with
/// a duration always set, reads as stated.
#[verifier::external_body]
fn expires_in(seconds: u64) -> (res: Result<PresigningConfig, String>)
    ensures
        res is Ok <==> seconds <= LONGEST_EXPIRY_SECONDS,
        res matches Ok(config) ==> config_validity(config) == seconds,
        res matches Err(text) ==> text@ == too_long_text(),
{
    match PresigningConfig::expires_in(std::time::Duration::from_secs(seconds)) {
        Ok(config) => Ok(config),
        Err(error) => Err(error.to_string()),
    }
}

/// The validity in seconds that a request asks for: the requested one,
/// or an hour where none is requested.
pub fn expiry_seconds(requested: Option<u64>) -> (res: u64)
    ensures
        res == expiry_seconds_spec(requested),
{
    match requested {
        Some(seconds) => seconds,
        None => DEFAULT_EXPIRY_SECONDS,
    }
}

/// Builds the presigning configuration for a validity of `seconds`
/// seconds. It is granted for up to a week; a longer validity is turned
/// down with the signing library's reason.
pub fn presigning_config(seconds: u64) -> (res: Result<PresigningConfig, CommandError>)
    ensures
        res is Ok <==> seconds <= LONGEST_EXPIRY_SECONDS,
        res matches Ok(config) ==> config_validity(config) == seconds,
        res matches Err(e) ==> e matches CommandError::PresigningConfig(text) && text@
            == too_long_text(),
{
    match expires_in(seconds) {
        Ok(config) => Ok(config),
        Err(text) => Err(CommandError::PresigningConfig(text)),
    }
}

} // verus!
