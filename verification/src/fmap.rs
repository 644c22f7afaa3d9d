//! Memory mappings that the native library scans in place of a file.
//!
//! A mapping is opened by the native library over a memory region or over an
//! open file handle, and it is known here by its address alone. The memory
//! or the handle behind a mapping is not owned by it: whoever opened the
//! mapping keeps both alive for as long as the mapping is used.

use vstd::prelude::*;
use vstd::string::*;

verus! {

/// The error of a mapping that the native library did not open.
#[derive(Clone, Copy, Debug, PartialEq, Eq, Structural)]
pub struct MapError;

impl MapError {
    /// The error.
    pub fn new() -> (err: MapError)
        ensures
            err == MapError,
    {
        MapError {  }
    }

    /// The text of the error.
    pub fn to_string(&self) -> (text: String)
        ensures
            text@ == "Failed to open mapping"@,
    {
        String::from_str("Failed to open mapping")
    }
}

/// A mapping that the native library opened.
#[derive(Debug)]
pub struct Fmap(usize);

impl View for Fmap {
    type V = usize;

    /// The address of the native mapping.
    closed spec fn view(&self) -> usize {
        self.0
    }
}

impl Fmap {
    #[verifier::type_invariant]
    spec fn is_open(self) -> bool {
        self.0 != 0
    }

    /// Takes what the native open call returned: the address of the new
    /// mapping, or null. A null mapping is an error; any other address is
    /// kept as it is.
    pub fn from_native(mapping: usize) -> (opened: Result<Fmap, MapError>)
        ensures
            opened is Err <==> mapping == 0,
            opened matches Ok(map) ==> map@ == mapping,
    {
        if mapping == 0 {
            Err(MapError::new())
        } else {
            Ok(Fmap(mapping))
        }
    }

    /// The address of the native mapping, which is never null.
    pub fn raw(&self) -> (mapping: usize)
        ensures
            mapping == self@,
            mapping != 0,
    {
        proof {
            use_type_invariant(self);
        }
        self.0
    }
}

/// The error code with which a positional read on a Windows handle reports
/// that it began at or past the end of the file.
pub const ERROR_HANDLE_EOF: u32 = 38;

/// What a positional read hands back to the native mapper: the count of
/// bytes read, or -1 for a failure. A read that failed only because it
/// reached the end of the file is no failure: it reports the bytes that
/// were read, which is none.
pub open spec fn spec_pread_result(failed: bool, last_error: u32, read_bytes: u32) -> i32 {
    if failed && last_error != ERROR_HANDLE_EOF {
        -1i32
    } else {
        read_bytes as i32
    }
}

/// Decides what the read callback of a handle-backed mapping returns on
/// Windows. `failed` says whether the read call failed, `last_error` is the
/// error code of a failed call, and `read_bytes` is the count that the call
/// wrote.
pub fn pread_result(failed: bool, last_error: u32, read_bytes: u32) -> (result: i32)
    ensures
        result == spec_pread_result(failed, last_error, read_bytes),
        failed && last_error != ERROR_HANDLE_EOF ==> result == -1,
        read_bytes <= i32::MAX && !(failed && last_error != ERROR_HANDLE_EOF) ==> result
            == read_bytes,
{
    if failed && last_error != ERROR_HANDLE_EOF {
        return -1;
    }
    #[verifier::truncate]
    (read_bytes as i32)
}

/// Splits the offset of a positional read into the two 32-bit halves that
/// the Windows read call takes: the low half first, then the high half.
pub fn split_offset(offset: u64) -> (halves: (u64, u64))
    ensures
        halves.0 == offset & 0xffff_ffff,
        halves.1 == offset >> 32,
        halves.0 <= u32::MAX,
        halves.1 <= u32::MAX,
        halves.0 + halves.1 * 0x1_0000_0000 == offset,
{
    let low = offset & 0xffff_ffff;
    let high = offset >> 32;
    assert(low <= 0xffff_ffff && high <= 0xffff_ffff && low + high * 0x1_0000_0000 == offset)
        by (bit_vector)
        requires
            low == offset & 0xffff_ffff,
            high == offset >> 32,
    ;
    (low, high)
}

} // verus!
