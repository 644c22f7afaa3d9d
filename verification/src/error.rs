//! The error that every failed native call ends in.

use vstd::prelude::*;
use vstd::string::*;

use crate::ffi::cl_error;
use crate::text::{decimal_text, push_decimal};

verus! {

/// An error indicating a clam failure: the status that a native call
/// returned.
#[derive(Clone, Copy, Debug, PartialEq, Eq, Structural)]
pub struct ClamError {
    code: cl_error,
}

impl View for ClamError {
    type V = cl_error;

    /// The status that the error wraps.
    closed spec fn view(&self) -> cl_error {
        self.code
    }
}

impl ClamError {
    /// Wraps a native status.
    pub fn new(native_err: cl_error) -> (err: Self)
        ensures
            err@ == native_err,
    {
        ClamError { code: native_err }
    }

    /// Reads the status of a native call that hands out nothing else:
    /// success, or the error that wraps the status.
    pub fn check(status: cl_error) -> (outcome: Result<(), ClamError>)
        ensures
            outcome is Ok <==> status == cl_error::CL_SUCCESS,
            outcome matches Err(e) ==> e@ == status,
    {
        match status {
            cl_error::CL_SUCCESS => Ok(()),
            _ => Err(ClamError::new(status)),
        }
    }

    /// The raw numeric code of the wrapped status.
    pub fn code(&self) -> (code: i32)
        ensures
            code == self@.spec_code(),
    {
        self.code.code()
    }

    /// The text of an error whose status the native library describes as
    /// `description`: `cl_error <code>: <description>`.
    pub open spec fn rendered(self, description: Seq<char>) -> Seq<char> {
        "cl_error "@ + decimal_text(self@.spec_code() as nat) + ": "@ + description
    }

    /// Formats the error for display. `description` is the native library's
    /// own text for the status.
    pub fn to_string(&self, description: &str) -> (text: String)
        ensures
            text@ == self.rendered(description@),
    {
        let mut text = String::from_str("cl_error ");
        let code = self.code.code();
        push_decimal(&mut text, code as u32);
        text.append(": ");
        text.append(description);
        text
    }
}

/// Two errors are equal exactly when they wrap the same status.
pub proof fn lemma_error_equality(a: ClamError, b: ClamError)
    ensures
        (a == b) <==> (a@ == b@),
{
}

} // verus!
