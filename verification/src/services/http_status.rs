//! The status of an HTTP response: whether it is one of success, and
//! how it is shown.

use crate::error::CommandError;
use crate::utils::text::{decimal, decimal_spec};
use vstd::prelude::*;

verus! {

/// Whether `code` is a status code at all: a number of three digits.
pub open spec fn is_status_code(code: u16) -> bool {
    100 <= code <= 999
}

/// Whether `code` is a status of success.
pub open spec fn is_success_code(code: u16) -> bool {
    200 <= code < 300
}

/// How the HTTP library shows the status code `code`: the number and
/// the reason phrase that goes with it.
pub uninterp spec fn status_text(code: u16) -> Seq<char>;

/// How a response status is shown: a status code as the HTTP library
/// shows it, any other number as the number alone.
pub open spec fn status_line(code: u16) -> Seq<char> {
    if is_status_code(code) {
        status_text(code)
    } else {
        decimal_spec(code as nat)
    }
}

/// Calls `StatusCode::from_u16` and `StatusCode::is_success` of `http`,
/// as `reqwest` hands them on. Trusted: a number is taken for a status
/// code exactly where it has three digits, and such a code is one of
/// success exactly from 200 to 299.
#[verifier::external_body]
fn success_of(code: u16) -> (res: Option<bool>)
    ensures
        res is Some <==> is_status_code(code),
        res matches Some(success) ==> success == is_success_code(code),
{
    match reqwest::StatusCode::from_u16(code) {
        Ok(status) => Some(status.is_success()),
        Err(_) => None,
    }
}

/// Calls `StatusCode::from_u16` of `http`, as `reqwest` hands it on, and
/// renders the status code through its `Display` impl. Trusted: a number
/// is taken for a status code exactly where it has three digits, and the
/// text depends on the number alone.
#[verifier::external_body]
fn shown_of(code: u16) -> (res: Option<String>)
    ensures
        res is Some <==> is_status_code(code),
        res matches Some(text) ==> text@ == status_text(code),
{
    match reqwest::StatusCode::from_u16(code) {
        Ok(status) => Some(status.to_string()),
        Err(_) => None,
    }
}

/// Judges a response from what the HTTP library says of its status:
/// only a status of success passes. Any other is a failure that shows
/// the status as the library shows it, or, where the library does not
/// take the number for a status code, the number alone.
pub fn response_verdict(code: u16, success: Option<bool>, shown: Option<String>) -> (res: Result<
    (),
    CommandError,
>)
    ensures
        res is Ok <==> success == Some(true),
        res matches Err(e) ==> e matches CommandError::HttpStatus(text) && text@ == (match shown {
            Some(line) => line@,
            None => decimal_spec(code as nat),
        }),
{
    match success {
        Some(true) => Ok(()),
        _ => {
            let text = match shown {
                Some(line) => line,
                None => decimal(code as u64),
            };
            Err(CommandError::HttpStatus(text))
        },
    }
}

/// Judges a response by its status: it passes exactly with a status of
/// success, from 200 to 299.
pub fn check_status(code: u16) -> (res: Result<(), CommandError>)
    ensures
        res is Ok <==> is_success_code(code),
        res matches Err(e) ==> e matches CommandError::HttpStatus(text) && text@ == status_line(
            code,
        ),
{
    let success = success_of(code);
    let shown = shown_of(code);
    response_verdict(code, success, shown)
}

} // verus!
