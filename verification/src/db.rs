//! The signature databases.

use vstd::prelude::*;
use vstd::utf8::*;

use crate::text::decode_valid;

verus! {

/// The default database directory, from the bytes of the path that the
/// native library reports. The native library reports a UTF-8 path.
pub fn default_directory(raw: &[u8]) -> (directory: String)
    requires
        valid_utf8(raw@),
    ensures
        directory@ == decode_utf8(raw@),
{
    decode_valid(raw)
}

} // verus!
