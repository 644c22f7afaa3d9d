//! The version of the native library.

use vstd::prelude::*;
use vstd::utf8::*;

use crate::text::decode_valid;

verus! {

/// The version of the native library, from the bytes of the version text
/// that it reports. The native library reports a UTF-8 text.
pub fn version(raw: &[u8]) -> (version: String)
    requires
        valid_utf8(raw@),
    ensures
        version@ == decode_utf8(raw@),
{
    decode_valid(raw)
}

} // verus!
