//! Safe, checked marshaling layer for the ClamAV scanning engine.
//!
//! Every value that crosses the boundary to the native library is a plain
//! value here: status codes, option words, property keys, byte strings.
//! The functions of this crate decide what is sent to the native library
//! and what its answers mean; each carries a contract that is proved.

use vstd::prelude::*;

pub mod db;
pub mod engine;
mod error;
pub mod ffi;
pub mod fmap;
pub mod scan_settings;
pub mod text;
pub mod version;
pub mod windows_fd;

pub use error::ClamError;

use ffi::cl_error;
use text::{lossy_text, utf8_to_string_lossy};

verus! {

/// Reads the status of the native library's one initialisation.
///
/// The native library is initialised once in a process, and the status of
/// that one call is kept. Every request to initialise, the first and each
/// later one, is answered from the kept status, so all of them get the same
/// answer: success, or the error that wraps the status.
pub fn initialize(status: cl_error) -> (outcome: Result<(), ClamError>)
    ensures
        outcome is Ok <==> status == cl_error::CL_SUCCESS,
        outcome matches Err(e) ==> e@ == status,
{
    ClamError::check(status)
}

/// The version of the native library, from what it reports: no text at all,
/// or the bytes of a text. No text gives the empty version; bytes are read
/// leniently, so a malformed text still gives a version.
pub fn version(raw: Option<&[u8]>) -> (version: String)
    ensures
        raw is None ==> version@ == Seq::<char>::empty(),
        raw matches Some(bytes) ==> version@ == lossy_text(bytes@),
{
    match raw {
        None => String::new(),
        Some(bytes) => utf8_to_string_lossy(bytes),
    }
}

} // verus!
