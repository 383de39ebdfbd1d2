//! What the responses to the simulator's calls mean.

use crate::error::DecodeError;
use crate::message::{Response, ResponseModel};
use crate::value::ValueModel;
use vstd::prelude::*;

verus! {

/// Whether a response reports success with the value `true`.
pub open spec fn says_true(response: ResponseModel) -> bool {
    response.result == Ok::<ValueModel, ValueModel>(ValueModel::Boolean(true))
}

/// Whether a response reports success with the value `true`. An error, and
/// any other value, count as `false`.
pub fn is_true(response: &Response) -> (out: bool)
    ensures
        out == says_true(response@),
{
    match &response.result {
        Ok(value) => match value.as_bool() {
            Some(flag) => flag,
            None => false,
        },
        Err(_) => false,
    }
}

/// Whether a response reports success, whatever its value.
pub open spec fn says_ok(response: ResponseModel) -> bool {
    response.result is Ok
}

/// Whether a response reports success, whatever its value.
pub fn is_ok(response: &Response) -> (out: bool)
    ensures
        out == says_ok(response@),
{
    match &response.result {
        Ok(_) => true,
        Err(_) => false,
    }
}

/// Whether a response carries nothing that has to be looked at: an error, or
/// the value nil.
pub open spec fn says_nothing(response: ResponseModel) -> bool {
    match response.result {
        Ok(value) => value is Nil,
        Err(_) => true,
    }
}

/// Whether a response carries nothing that has to be looked at: an error, or
/// the value nil.
pub fn is_nil_or_error(response: &Response) -> (out: bool)
    ensures
        out == says_nothing(response@),
{
    match &response.result {
        Ok(value) => value.is_nil(),
        Err(_) => true,
    }
}

/// The version number that a response reports: its value if that is an
/// unsigned integer, and zero for an error or any other value.
pub open spec fn version_of(response: ResponseModel) -> u64 {
    match response.result {
        Ok(value) => match value.as_u64() {
            Some(version) => version,
            None => 0,
        },
        Err(_) => 0,
    }
}

/// The version number that a response reports.
pub fn version(response: &Response) -> (out: u64)
    ensures
        out == version_of(response@),
{
    match &response.result {
        Ok(value) => match value.as_u64() {
            Some(version) => version,
            None => 0,
        },
        Err(_) => 0,
    }
}

/// The text that a response reports, if it reports success with a text
/// string.
pub open spec fn text_of(response: ResponseModel) -> Option<Seq<char>> {
    match response.result {
        Ok(value) => value.as_str(),
        Err(_) => None,
    }
}

/// The text that a response reports. An error, and a value that is no text
/// string, have an unexpected shape.
pub fn text(response: &Response) -> (out: Result<String, DecodeError>)
    ensures
        match out {
            Ok(found) => text_of(response@) == Some(found@),
            Err(error) => text_of(response@).is_none() && error == DecodeError::UnexpectedShape,
        },
{
    match &response.result {
        Ok(value) => match value.as_str() {
            Some(found) => Ok(found.to_owned()),
            None => Err(DecodeError::UnexpectedShape),
        },
        Err(_) => Err(DecodeError::UnexpectedShape),
    }
}

/// Checks that a response reports success with the value nil. An error, and
/// any other value, have an unexpected shape.
pub fn nothing(response: &Response) -> (out: Result<(), DecodeError>)
    ensures
        match out {
            Ok(()) => response@.result == Ok::<ValueModel, ValueModel>(ValueModel::Nil),
            Err(error) => response@.result != Ok::<ValueModel, ValueModel>(ValueModel::Nil)
                && error == DecodeError::UnexpectedShape,
        },
{
    match &response.result {
        Ok(value) => if value.is_nil() {
            Ok(())
        } else {
            Err(DecodeError::UnexpectedShape)
        },
        Err(_) => Err(DecodeError::UnexpectedShape),
    }
}

/// What a comparison of versions finds.
#[derive(Clone, Copy, Debug, PartialEq, Eq, Structural)]
pub enum VersionCheck {
    /// Both sides are recent enough for each other.
    Supported,
    /// The server is older than this client requires.
    ServerTooOld,
    /// This client is older than the server requires.
    ClientTooOld,
}

/// What a comparison of versions finds: a server that is too old is reported
/// first, then a client that is too old.
pub open spec fn version_verdict(
    client_v: u64,
    client_min_v: u64,
    server_v: u64,
    server_min_v: u64,
) -> VersionCheck {
    if server_v < server_min_v {
        VersionCheck::ServerTooOld
    } else if client_v < client_min_v {
        VersionCheck::ClientTooOld
    } else {
        VersionCheck::Supported
    }
}

/// Compares the versions of the two sides with the versions they require of
/// each other.
pub fn check_versions(client_v: u64, client_min_v: u64, server_v: u64, server_min_v: u64) -> (out:
    VersionCheck)
    ensures
        out == version_verdict(client_v, client_min_v, server_v, server_min_v),
{
    if server_v < server_min_v {
        VersionCheck::ServerTooOld
    } else if client_v < client_min_v {
        VersionCheck::ClientTooOld
    } else {
        VersionCheck::Supported
    }
}

} // verus!
