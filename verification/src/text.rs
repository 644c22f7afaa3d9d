//! Text that crosses the native boundary: byte strings that come back from
//! the native library, terminated byte strings that go to it, and the
//! decimal rendering of status codes.

use vstd::prelude::*;
use vstd::string::*;
use vstd::utf8::*;

verus! {

/// The text that `String::from_utf8_lossy` makes of a byte string. Where the
/// bytes are valid UTF-8 it is their decoding; elsewhere each malformed part
/// is replaced, as std documents.
pub uninterp spec fn lossy_text(bytes: Seq<u8>) -> Seq<char>;

/// Calls `std::str::from_utf8` and copies the borrowed text. The contract
/// claims what std documents: the call succeeds exactly on valid UTF-8, and
/// the text then holds the characters that the bytes encode.
#[verifier::external_body]
pub(crate) fn utf8_to_string(bytes: &[u8]) -> (text: Option<String>)
    ensures
        text is Some <==> valid_utf8(bytes@),
        text matches Some(s) ==> s@ == decode_utf8(bytes@),
{
    match std::str::from_utf8(bytes) {
        Ok(s) => Some(s.to_string()),
        Err(_) => None,
    }
}

/// Calls `String::from_utf8_lossy` and copies the result. The contract names
/// the result and claims the one fact std documents for valid input: the
/// text is then the plain decoding.
#[verifier::external_body]
pub(crate) fn utf8_to_string_lossy(bytes: &[u8]) -> (text: String)
    ensures
        text@ == lossy_text(bytes@),
        valid_utf8(bytes@) ==> text@ == decode_utf8(bytes@),
{
    String::from_utf8_lossy(bytes).into_owned()
}

/// Decodes a byte string from the native library, or says that it is not
/// valid UTF-8.
pub fn decode(bytes: &[u8]) -> (text: Option<String>)
    ensures
        text is Some <==> valid_utf8(bytes@),
        text matches Some(s) ==> s@ == decode_utf8(bytes@),
{
    utf8_to_string(bytes)
}

/// Decodes a byte string that the native library promises to be UTF-8.
pub fn decode_valid(bytes: &[u8]) -> (text: String)
    requires
        valid_utf8(bytes@),
    ensures
        text@ == decode_utf8(bytes@),
{
    match utf8_to_string(bytes) {
        Some(s) => s,
        None => String::new(),
    }
}

/// True when a byte string holds a zero byte.
pub open spec fn has_nul(bytes: Seq<u8>) -> bool {
    exists|i: int| 0 <= i < bytes.len() && bytes[i] == 0
}

/// The bytes of a terminated string: the text's own bytes and one zero byte.
pub open spec fn terminated(bytes: Seq<u8>) -> Seq<u8> {
    bytes.push(0u8)
}

/// What the native library reads of a buffer: the bytes before the first
/// zero byte.
pub open spec fn c_read(buffer: Seq<u8>) -> Seq<u8>
    decreases buffer.len(),
{
    if buffer.len() == 0 || buffer[0] == 0 {
        Seq::empty()
    } else {
        seq![buffer[0]] + c_read(buffer.drop_first())
    }
}

/// The native library reads a terminated text back whole: where the bytes
/// hold no zero byte, what it reads of the terminated bytes is the bytes.
pub proof fn lemma_c_string_reads_back(bytes: Seq<u8>)
    requires
        !has_nul(bytes),
    ensures
        c_read(terminated(bytes)) == bytes,
    decreases bytes.len(),
{
    if bytes.len() == 0 {
        assert(terminated(bytes)[0] == 0);
    } else {
        let rest = bytes.drop_first();
        assert(bytes[0] != 0);
        assert forall|i: int| 0 <= i < rest.len() implies rest[i] != 0 by {
            assert(rest[i] == bytes[i + 1]);
        }
        lemma_c_string_reads_back(rest);
        assert(terminated(bytes).drop_first() =~= terminated(rest));
        assert(terminated(bytes)[0] == bytes[0]);
        assert(seq![bytes[0]] + rest =~= bytes);
    }
}

/// Prepares a text for the native library, which reads up to the first zero
/// byte. A text that holds a zero byte cannot be passed whole and is
/// refused; any other text is returned as its bytes with the terminator.
pub fn c_string(text: &str) -> (out: Option<Vec<u8>>)
    ensures
        out is None <==> has_nul(text.spec_bytes()),
        out matches Some(v) ==> v@ == terminated(text.spec_bytes()),
{
    let bytes = text.as_bytes();
    let n = bytes.len();
    let mut v: Vec<u8> = Vec::new();
    let mut i: usize = 0;
    while i < n
        invariant
            n == bytes@.len(),
            bytes@ == text.spec_bytes(),
            i <= n,
            v@ == bytes@.subrange(0, i as int),
            forall|j: int| 0 <= j < i ==> bytes@[j] != 0,
        decreases n - i,
    {
        let b = bytes[i];
        if b == 0 {
            return None;
        }
        v.push(b);
        assert(v@ == bytes@.subrange(0, i as int + 1));
        i += 1;
    }
    assert(bytes@.subrange(0, n as int) == bytes@);
    v.push(0);
    Some(v)
}

/// The text of one decimal digit.
pub open spec fn digit_text(d: int) -> Seq<char> {
    if d == 0 {
        "0"@
    } else if d == 1 {
        "1"@
    } else if d == 2 {
        "2"@
    } else if d == 3 {
        "3"@
    } else if d == 4 {
        "4"@
    } else if d == 5 {
        "5"@
    } else if d == 6 {
        "6"@
    } else if d == 7 {
        "7"@
    } else if d == 8 {
        "8"@
    } else {
        "9"@
    }
}

/// The decimal text of a natural number, without leading zeros.
pub open spec fn decimal_text(n: nat) -> Seq<char>
    decreases n,
{
    if n < 10 {
        digit_text(n as int)
    } else {
        decimal_text(n / 10) + digit_text((n % 10) as int)
    }
}

fn digit_str(d: u32) -> (s: &'static str)
    requires
        d < 10,
    ensures
        s@ == digit_text(d as int),
{
    match d {
        0 => "0",
        1 => "1",
        2 => "2",
        3 => "3",
        4 => "4",
        5 => "5",
        6 => "6",
        7 => "7",
        8 => "8",
        _ => "9",
    }
}

/// Appends the decimal text of `n` to `out`.
pub fn push_decimal(out: &mut String, n: u32)
    ensures
        final(out)@ == old(out)@ + decimal_text(n as nat),
    decreases n,
{
    if n < 10 {
        out.append(digit_str(n));
    } else {
        push_decimal(out, n / 10);
        out.append(digit_str(n % 10));
    }
}

} // verus!
