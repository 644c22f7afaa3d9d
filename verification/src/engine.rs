//! The engine's side of the native boundary: how paths and names are handed
//! to the native engine, what its answers mean, which value kind each engine
//! property has, and how property values are handed to the native setters
//! and read back from the getters.

use vstd::prelude::*;
use vstd::string::*;
use vstd::utf8::*;

use crate::error::ClamError;
use crate::ffi::{cl_engine_field, cl_error};
use crate::text::{
    c_read, c_string, decode_valid, has_nul, lemma_c_string_reads_back, terminated,
};

verus! {

/// Stats of a loaded database.
#[derive(Clone, Copy, Debug, PartialEq, Eq, Structural)]
pub struct DatabaseStats {
    /// The number of signatures that the load brought in.
    pub signature_count: u32,
}

/// The outcome of a scan that ran to its end.
#[derive(Debug, PartialEq, Eq)]
pub enum ScanResult {
    /// Nothing was found.
    Clean,
    /// The input is trusted and was not scanned further.
    Whitelisted,
    /// A signature matched; the name of the detection.
    Virus(String),
}

/// The kind of value that an engine property holds.
#[derive(Clone, Copy, Debug, PartialEq, Eq, Structural)]
pub enum EngineValueType {
    /// An unsigned number of 32 bits.
    U32,
    /// An unsigned number of 64 bits.
    U64,
    /// A text.
    String,
    /// A point in time.
    Time,
}

/// A point in time as the native library counts it: seconds since the Unix
/// epoch, negative before it.
#[derive(Clone, Copy, Debug, PartialEq, Eq, Structural)]
pub struct ClamTime(i64);

/// A point in time as a distance from the Unix epoch.
#[derive(Clone, Copy, Debug, PartialEq, Eq, Structural)]
pub enum EpochOffset {
    /// So many seconds after the epoch, or the epoch itself.
    After(u64),
    /// So many seconds before the epoch.
    Before(u64),
}

impl View for ClamTime {
    type V = i64;

    /// The seconds since the epoch.
    closed spec fn view(&self) -> i64 {
        self.0
    }
}

impl ClamTime {
    /// The point in time `seconds` after the epoch.
    pub fn new(seconds: i64) -> (time: Self)
        ensures
            time@ == seconds,
    {
        ClamTime(seconds)
    }

    /// The seconds since the epoch.
    pub fn seconds(&self) -> (seconds: i64)
        ensures
            seconds == self@,
    {
        self.0
    }

    /// The distance of a point in time from the epoch.
    pub open spec fn spec_epoch_offset(seconds: i64) -> EpochOffset {
        if seconds >= 0 {
            EpochOffset::After(seconds as u64)
        } else {
            EpochOffset::Before((-seconds) as u64)
        }
    }

    /// Splits the signed count of seconds into a direction and a distance,
    /// from which a system time is made by adding to or subtracting from the
    /// epoch. Every count has a distance: the most negative one too.
    pub fn epoch_offset(&self) -> (offset: EpochOffset)
        ensures
            offset == Self::spec_epoch_offset(self@),
            offset matches EpochOffset::After(n) ==> n == self@,
            offset matches EpochOffset::Before(n) ==> n == -self@,
    {
        let seconds = self.0;
        if seconds >= 0 {
            EpochOffset::After(seconds as u64)
        } else {
            let above: i64 = seconds + 1;
            let distance: u64 = (-above) as u64 + 1;
            EpochOffset::Before(distance)
        }
    }
}

/// The value of an engine property.
#[derive(Debug, PartialEq, Eq)]
pub enum EngineValue {
    /// An unsigned number of 32 bits.
    U32(u32),
    /// An unsigned number of 64 bits.
    U64(u64),
    /// A text.
    String(String),
    /// A point in time.
    Time(ClamTime),
}

/// What an engine value is, without regard to how its text is stored.
pub ghost enum EngineValueView {
    U32(u32),
    U64(u64),
    String(Seq<char>),
    Time(i64),
}

impl View for EngineValue {
    type V = EngineValueView;

    open spec fn view(&self) -> EngineValueView {
        match self {
            EngineValue::U32(v) => EngineValueView::U32(*v),
            EngineValue::U64(v) => EngineValueView::U64(*v),
            EngineValue::String(s) => EngineValueView::String(s@),
            EngineValue::Time(t) => EngineValueView::Time(t@),
        }
    }
}

impl EngineValueView {
    /// The kind of the value.
    pub open spec fn kind(self) -> EngineValueType {
        match self {
            EngineValueView::U32(_) => EngineValueType::U32,
            EngineValueView::U64(_) => EngineValueType::U64,
            EngineValueView::String(_) => EngineValueType::String,
            EngineValueView::Time(_) => EngineValueType::Time,
        }
    }
}

impl EngineValue {
    /// The kind of the value.
    pub fn value_type(&self) -> (kind: EngineValueType)
        ensures
            kind == self@.kind(),
    {
        match self {
            EngineValue::U32(_) => EngineValueType::U32,
            EngineValue::U64(_) => EngineValueType::U64,
            EngineValue::String(_) => EngineValueType::String,
            EngineValue::Time(_) => EngineValueType::Time,
        }
    }
}

/// A property value in the form in which it crosses the native boundary.
///
/// The native library has one pair of accessors for numbers and one for
/// texts. A text that goes to the setter ends with its terminating zero
/// byte; a text that came from the getter holds the bytes before the
/// terminator.
#[derive(Debug, PartialEq, Eq)]
pub enum NativeValue {
    /// A number, for the numeric accessors.
    Num(i64),
    /// The bytes of a text, for the text accessors.
    Str(Vec<u8>),
}

/// A native value with its bytes as a sequence.
pub ghost enum NativeValueView {
    Num(i64),
    Str(Seq<u8>),
}

impl View for NativeValue {
    type V = NativeValueView;

    open spec fn view(&self) -> NativeValueView {
        match self {
            NativeValue::Num(n) => NativeValueView::Num(*n),
            NativeValue::Str(bytes) => NativeValueView::Str(bytes@),
        }
    }
}

/// The kind of value that each engine property holds.
pub open spec fn spec_field_type(field: cl_engine_field) -> EngineValueType {
    match field {
        cl_engine_field::CL_ENGINE_MAX_SCANSIZE => EngineValueType::U64,
        cl_engine_field::CL_ENGINE_MAX_FILESIZE => EngineValueType::U64,
        cl_engine_field::CL_ENGINE_MAX_RECURSION => EngineValueType::U32,
        cl_engine_field::CL_ENGINE_MAX_FILES => EngineValueType::U32,
        cl_engine_field::CL_ENGINE_MIN_CC_COUNT => EngineValueType::U32,
        cl_engine_field::CL_ENGINE_MIN_SSN_COUNT => EngineValueType::U32,
        cl_engine_field::CL_ENGINE_PUA_CATEGORIES => EngineValueType::String,
        cl_engine_field::CL_ENGINE_DB_OPTIONS => EngineValueType::U32,
        cl_engine_field::CL_ENGINE_DB_VERSION => EngineValueType::U32,
        cl_engine_field::CL_ENGINE_DB_TIME => EngineValueType::Time,
        cl_engine_field::CL_ENGINE_AC_ONLY => EngineValueType::U32,
        cl_engine_field::CL_ENGINE_AC_MINDEPTH => EngineValueType::U32,
        cl_engine_field::CL_ENGINE_AC_MAXDEPTH => EngineValueType::U32,
        cl_engine_field::CL_ENGINE_TMPDIR => EngineValueType::String,
        cl_engine_field::CL_ENGINE_KEEPTMP => EngineValueType::U32,
        cl_engine_field::CL_ENGINE_BYTECODE_SECURITY => EngineValueType::U32,
        cl_engine_field::CL_ENGINE_BYTECODE_TIMEOUT => EngineValueType::U32,
        cl_engine_field::CL_ENGINE_BYTECODE_MODE => EngineValueType::U32,
        cl_engine_field::CL_ENGINE_MAX_EMBEDDEDPE => EngineValueType::U64,
        cl_engine_field::CL_ENGINE_MAX_HTMLNORMALIZE => EngineValueType::U64,
        cl_engine_field::CL_ENGINE_MAX_HTMLNOTAGS => EngineValueType::U64,
        cl_engine_field::CL_ENGINE_MAX_SCRIPTNORMALIZE => EngineValueType::U64,
        cl_engine_field::CL_ENGINE_MAX_ZIPTYPERCG => EngineValueType::U64,
        cl_engine_field::CL_ENGINE_FORCETODISK => EngineValueType::U32,
        cl_engine_field::CL_ENGINE_DISABLE_CACHE => EngineValueType::U32,
        cl_engine_field::CL_ENGINE_DISABLE_PE_STATS => EngineValueType::U32,
        cl_engine_field::CL_ENGINE_STATS_TIMEOUT => EngineValueType::U32,
        cl_engine_field::CL_ENGINE_MAX_PARTITIONS => EngineValueType::U32,
        cl_engine_field::CL_ENGINE_MAX_ICONSPE => EngineValueType::U32,
        cl_engine_field::CL_ENGINE_MAX_RECHWP3 => EngineValueType::U32,
        cl_engine_field::CL_ENGINE_MAX_SCANTIME => EngineValueType::U32,
        cl_engine_field::CL_ENGINE_PCRE_MATCH_LIMIT => EngineValueType::U64,
        cl_engine_field::CL_ENGINE_PCRE_RECMATCH_LIMIT => EngineValueType::U64,
        cl_engine_field::CL_ENGINE_PCRE_MAX_FILESIZE => EngineValueType::U64,
        cl_engine_field::CL_ENGINE_DISABLE_PE_CERTS => EngineValueType::U32,
        cl_engine_field::CL_ENGINE_PE_DUMPCERTS => EngineValueType::U32,
    }
}

/// The kind of value that an engine property holds. Each key has exactly
/// one kind.
pub fn get_field_type(field: cl_engine_field) -> (kind: EngineValueType)
    ensures
        kind == spec_field_type(field),
{
    match field {
        cl_engine_field::CL_ENGINE_MAX_SCANSIZE => EngineValueType::U64,
        cl_engine_field::CL_ENGINE_MAX_FILESIZE => EngineValueType::U64,
        cl_engine_field::CL_ENGINE_MAX_RECURSION => EngineValueType::U32,
        cl_engine_field::CL_ENGINE_MAX_FILES => EngineValueType::U32,
        cl_engine_field::CL_ENGINE_MIN_CC_COUNT => EngineValueType::U32,
        cl_engine_field::CL_ENGINE_MIN_SSN_COUNT => EngineValueType::U32,
        cl_engine_field::CL_ENGINE_PUA_CATEGORIES => EngineValueType::String,
        cl_engine_field::CL_ENGINE_DB_OPTIONS => EngineValueType::U32,
        cl_engine_field::CL_ENGINE_DB_VERSION => EngineValueType::U32,
        cl_engine_field::CL_ENGINE_DB_TIME => EngineValueType::Time,
        cl_engine_field::CL_ENGINE_AC_ONLY => EngineValueType::U32,
        cl_engine_field::CL_ENGINE_AC_MINDEPTH => EngineValueType::U32,
        cl_engine_field::CL_ENGINE_AC_MAXDEPTH => EngineValueType::U32,
        cl_engine_field::CL_ENGINE_TMPDIR => EngineValueType::String,
        cl_engine_field::CL_ENGINE_KEEPTMP => EngineValueType::U32,
        cl_engine_field::CL_ENGINE_BYTECODE_SECURITY => EngineValueType::U32,
        cl_engine_field::CL_ENGINE_BYTECODE_TIMEOUT => EngineValueType::U32,
        cl_engine_field::CL_ENGINE_BYTECODE_MODE => EngineValueType::U32,
        cl_engine_field::CL_ENGINE_MAX_EMBEDDEDPE => EngineValueType::U64,
        cl_engine_field::CL_ENGINE_MAX_HTMLNORMALIZE => EngineValueType::U64,
        cl_engine_field::CL_ENGINE_MAX_HTMLNOTAGS => EngineValueType::U64,
        cl_engine_field::CL_ENGINE_MAX_SCRIPTNORMALIZE => EngineValueType::U64,
        cl_engine_field::CL_ENGINE_MAX_ZIPTYPERCG => EngineValueType::U64,
        cl_engine_field::CL_ENGINE_FORCETODISK => EngineValueType::U32,
        cl_engine_field::CL_ENGINE_DISABLE_CACHE => EngineValueType::U32,
        cl_engine_field::CL_ENGINE_DISABLE_PE_STATS => EngineValueType::U32,
        cl_engine_field::CL_ENGINE_STATS_TIMEOUT => EngineValueType::U32,
        cl_engine_field::CL_ENGINE_MAX_PARTITIONS => EngineValueType::U32,
        cl_engine_field::CL_ENGINE_MAX_ICONSPE => EngineValueType::U32,
        cl_engine_field::CL_ENGINE_MAX_RECHWP3 => EngineValueType::U32,
        cl_engine_field::CL_ENGINE_MAX_SCANTIME => EngineValueType::U32,
        cl_engine_field::CL_ENGINE_PCRE_MATCH_LIMIT => EngineValueType::U64,
        cl_engine_field::CL_ENGINE_PCRE_RECMATCH_LIMIT => EngineValueType::U64,
        cl_engine_field::CL_ENGINE_PCRE_MAX_FILESIZE => EngineValueType::U64,
        cl_engine_field::CL_ENGINE_DISABLE_PE_CERTS => EngineValueType::U32,
        cl_engine_field::CL_ENGINE_PE_DUMPCERTS => EngineValueType::U32,
    }
}

/// True for the one status of a scan call that comes with a detection name.
/// With every other status the call hands out no name, and none is read.
pub fn reports_name(result: cl_error) -> (named: bool)
    ensures
        named == (result == cl_error::CL_VIRUS),
{
    match result {
        cl_error::CL_VIRUS => true,
        _ => false,
    }
}

/// Reads the answer of a native scan call. `virname` holds the bytes of
/// the detection name that the call handed out; it is read only where the
/// status is `CL_VIRUS`, and it must then be valid UTF-8.
///
/// A clean status gives `Clean`, `CL_BREAK` gives `Whitelisted`, `CL_VIRUS`
/// gives `Virus` with the reported name, and every other status gives the
/// error that wraps it.
pub fn map_scan_result(result: cl_error, virname: &[u8]) -> (outcome: Result<ScanResult, ClamError>)
    requires
        result == cl_error::CL_VIRUS ==> valid_utf8(virname@),
    ensures
        result == cl_error::CL_SUCCESS ==> outcome == Ok::<ScanResult, ClamError>(
            ScanResult::Clean,
        ),
        result == cl_error::CL_BREAK ==> outcome == Ok::<ScanResult, ClamError>(
            ScanResult::Whitelisted,
        ),
        result == cl_error::CL_VIRUS ==> (outcome matches Ok(ScanResult::Virus(name)) && name@
            == decode_utf8(virname@)),
        result != cl_error::CL_SUCCESS && result != cl_error::CL_BREAK && result
            != cl_error::CL_VIRUS ==> (outcome matches Err(e) && e@ == result),
{
    match result {
        cl_error::CL_SUCCESS => Ok(ScanResult::Clean),
        cl_error::CL_BREAK => Ok(ScanResult::Whitelisted),
        cl_error::CL_VIRUS => Ok(ScanResult::Virus(decode_valid(virname))),
        _ => Err(ClamError::new(result)),
    }
}

/// Prepares a text for a native call that reads it up to the first zero
/// byte: the bytes of the text with the terminator, or `CL_EARG` for a text
/// that holds a zero byte and could only be passed cut short.
fn text_request(text: &str) -> (out: Result<Vec<u8>, ClamError>)
    ensures
        has_nul(text.spec_bytes()) ==> (out matches Err(e) && e@ == cl_error::CL_EARG),
        !has_nul(text.spec_bytes()) ==> (out matches Ok(v) && v@ == terminated(
            text.spec_bytes(),
        )),
{
    match c_string(text) {
        Some(bytes) => Ok(bytes),
        None => Err(ClamError::new(cl_error::CL_EARG)),
    }
}

/// Prepares the path of a database file or directory for the native load
/// call. A path that holds a zero byte is an argument error, and no load is
/// made; any other path is handed over whole, with its terminator.
pub fn load_request(path: &str) -> (out: Result<Vec<u8>, ClamError>)
    ensures
        has_nul(path.spec_bytes()) ==> (out matches Err(e) && e@ == cl_error::CL_EARG),
        !has_nul(path.spec_bytes()) ==> (out matches Ok(v) && v@ == terminated(
            path.spec_bytes(),
        )),
{
    text_request(path)
}

/// Prepares the path of the file to scan for the native scan call. A path
/// that holds a zero byte is an argument error, and no scan is made; any
/// other path is handed over whole, with its terminator.
pub fn scan_request(path: &str) -> (out: Result<Vec<u8>, ClamError>)
    ensures
        has_nul(path.spec_bytes()) ==> (out matches Err(e) && e@ == cl_error::CL_EARG),
        !has_nul(path.spec_bytes()) ==> (out matches Ok(v) && v@ == terminated(
            path.spec_bytes(),
        )),
{
    text_request(path)
}

/// Prepares the advisory file name of a scan of a descriptor or a mapping.
/// Without a name the native call is handed none. A name that holds a zero
/// byte is an argument error, and no scan is made; any other name is handed
/// over whole, with its terminator.
pub fn filename_request(filename: Option<&str>) -> (out: Result<Option<Vec<u8>>, ClamError>)
    ensures
        filename is None ==> out == Ok::<Option<Vec<u8>>, ClamError>(None),
        filename matches Some(name) ==> (if has_nul(name.spec_bytes()) {
            out matches Err(e) && e@ == cl_error::CL_EARG
        } else {
            out matches Ok(Some(v)) && v@ == terminated(name.spec_bytes())
        }),
{
    match filename {
        None => Ok(None),
        Some(name) => {
            match text_request(name) {
                Ok(bytes) => Ok(Some(bytes)),
                Err(e) => Err(e),
            }
        },
    }
}

/// Reads the answer of the native compile call: success, or the error
/// that wraps the status.
pub fn compile_result(status: cl_error) -> (outcome: Result<(), ClamError>)
    ensures
        outcome is Ok <==> status == cl_error::CL_SUCCESS,
        outcome matches Err(e) ==> e@ == status,
{
    ClamError::check(status)
}

/// Reads the answer of the native load call: the count of signatures
/// that the call wrote, or the error that wraps the status.
pub fn load_result(status: cl_error, signature_count: u32) -> (outcome: Result<
    DatabaseStats,
    ClamError,
>)
    ensures
        outcome is Ok <==> status == cl_error::CL_SUCCESS,
        outcome matches Ok(stats) ==> stats.signature_count == signature_count,
        outcome matches Err(e) ==> e@ == status,
{
    match status {
        cl_error::CL_SUCCESS => Ok(DatabaseStats { signature_count }),
        _ => Err(ClamError::new(status)),
    }
}

/// The native form of a property value: numbers as the 64-bit number that
/// the numeric setter takes, a text as its bytes with the terminator.
pub open spec fn native_form(value: EngineValueView) -> NativeValueView {
    match value {
        EngineValueView::U32(v) => NativeValueView::Num(v as i64),
        EngineValueView::U64(v) => NativeValueView::Num(v as i64),
        EngineValueView::String(s) => NativeValueView::Str(terminated(encode_utf8(s))),
        EngineValueView::Time(t) => NativeValueView::Num(t),
    }
}

/// True when a value can be handed to the native setter as it is: a text
/// must be free of zero bytes, since the native library reads a text up to
/// the first one.
pub open spec fn passable(value: EngineValueView) -> bool {
    value matches EngineValueView::String(s) ==> !has_nul(encode_utf8(s))
}

/// Decides what a write of `value` to the property `field` hands to the
/// native library.
///
/// A value of another kind than the property's is refused with `CL_EARG`,
/// and so is a text that holds a zero byte, which could only be passed cut
/// short; nothing is then handed to the native library. Any other value
/// gives the argument for the native setter.
pub fn set_request(field: cl_engine_field, value: EngineValue) -> (request: Result<
    NativeValue,
    ClamError,
>)
    ensures
        value@.kind() != spec_field_type(field) ==> (request matches Err(e) && e@
            == cl_error::CL_EARG),
        value@.kind() == spec_field_type(field) && !passable(value@) ==> (request matches Err(e)
            && e@ == cl_error::CL_EARG),
        value@.kind() == spec_field_type(field) && passable(value@) ==> (request matches Ok(arg)
            && arg@ == native_form(value@)),
{
    let expected_type = get_field_type(field);
    let actual_type = value.value_type();
    if expected_type != actual_type {
        return Err(ClamError::new(cl_error::CL_EARG));
    }
    match value {
        EngineValue::U32(val) => Ok(NativeValue::Num(val as i64)),
        EngineValue::U64(val) => Ok(NativeValue::Num(#[verifier::truncate] (val as i64))),
        EngineValue::String(val) => {
            match c_string(val.as_str()) {
                Some(bytes) => Ok(NativeValue::Str(bytes)),
                None => Err(ClamError::new(cl_error::CL_EARG)),
            }
        },
        EngineValue::Time(val) => Ok(NativeValue::Num(val.seconds())),
    }
}

/// Reads the answer of a native setter: success, or the error that
/// wraps the status.
pub fn set_result(status: cl_error) -> (outcome: Result<(), ClamError>)
    ensures
        outcome is Ok <==> status == cl_error::CL_SUCCESS,
        outcome matches Err(e) ==> e@ == status,
{
    ClamError::check(status)
}

/// True when a reply has the shape that the accessors for a kind give: a
/// text for a text property, a number for every other.
pub open spec fn reply_fits(kind: EngineValueType, reply: NativeValueView) -> bool {
    (kind == EngineValueType::String) <==> (reply is Str)
}

/// The numeric part of a reply.
pub open spec fn reply_number(reply: NativeValueView) -> i64 {
    match reply {
        NativeValueView::Num(n) => n,
        NativeValueView::Str(_) => 0,
    }
}

/// The bytes of a reply.
pub open spec fn reply_bytes(reply: NativeValueView) -> Seq<u8> {
    match reply {
        NativeValueView::Num(_) => Seq::empty(),
        NativeValueView::Str(bytes) => bytes,
    }
}

/// The value that a reply of the native getter stands for, read as the
/// kind of the property: a number is cut to the width of the kind, a text
/// is decoded.
pub open spec fn value_of(kind: EngineValueType, reply: NativeValueView) -> EngineValueView {
    match kind {
        EngineValueType::U32 => EngineValueView::U32(reply_number(reply) as u32),
        EngineValueType::U64 => EngineValueView::U64(reply_number(reply) as u64),
        EngineValueType::String => EngineValueView::String(decode_utf8(reply_bytes(reply))),
        EngineValueType::Time => EngineValueView::Time(reply_number(reply)),
    }
}

/// Reads the answer of a native getter for the property `field`.
///
/// `err` is the status that the getter reported and `reply` what it
/// returned. A failed read gives the error that wraps the status. A reply of
/// another shape than the property's kind has, a number for a text or a
/// text for a number, is refused with `CL_EARG`. Any other reply gives the
/// value of the property's kind. The text of a text property must be valid
/// UTF-8.
pub fn get_result(field: cl_engine_field, err: cl_error, reply: NativeValue) -> (outcome: Result<
    EngineValue,
    ClamError,
>)
    requires
        err == cl_error::CL_SUCCESS && spec_field_type(field) == EngineValueType::String
            ==> valid_utf8(reply_bytes(reply@)),
    ensures
        err != cl_error::CL_SUCCESS ==> (outcome matches Err(e) && e@ == err),
        err == cl_error::CL_SUCCESS && !reply_fits(spec_field_type(field), reply@) ==> (
        outcome matches Err(e) && e@ == cl_error::CL_EARG),
        err == cl_error::CL_SUCCESS && reply_fits(spec_field_type(field), reply@) ==> (
        outcome matches Ok(value) && value@ == value_of(spec_field_type(field), reply@)),
{
    match err {
        cl_error::CL_SUCCESS => {},
        _ => {
            return Err(ClamError::new(err));
        },
    }
    match (get_field_type(field), reply) {
        (EngineValueType::U32, NativeValue::Num(n)) => Ok(
            EngineValue::U32(#[verifier::truncate] (n as u32)),
        ),
        (EngineValueType::U64, NativeValue::Num(n)) => Ok(
            EngineValue::U64(#[verifier::truncate] (n as u64)),
        ),
        (EngineValueType::Time, NativeValue::Num(n)) => Ok(EngineValue::Time(ClamTime::new(n))),
        (EngineValueType::String, NativeValue::Str(bytes)) => Ok(
            EngineValue::String(decode_valid(bytes.as_slice())),
        ),
        _ => Err(ClamError::new(cl_error::CL_EARG)),
    }
}

/// Reads the version of the loaded databases from the answer of the native
/// getter for `CL_ENGINE_DB_VERSION`.
pub fn database_version(err: cl_error, number: i64) -> (outcome: Result<u32, ClamError>)
    ensures
        err == cl_error::CL_SUCCESS ==> outcome == Ok::<u32, ClamError>(number as u32),
        err != cl_error::CL_SUCCESS ==> (outcome matches Err(e) && e@ == err),
{
    match get_result(cl_engine_field::CL_ENGINE_DB_VERSION, err, NativeValue::Num(number)) {
        Ok(EngineValue::U32(value)) => Ok(value),
        Ok(_) => Err(ClamError::new(cl_error::CL_EARG)),
        Err(e) => Err(e),
    }
}

/// Reads the build time of the loaded databases from the answer of the
/// native getter for `CL_ENGINE_DB_TIME`.
pub fn database_timestamp(err: cl_error, number: i64) -> (outcome: Result<ClamTime, ClamError>)
    ensures
        err == cl_error::CL_SUCCESS ==> (outcome matches Ok(time) && time@ == number),
        err != cl_error::CL_SUCCESS ==> (outcome matches Err(e) && e@ == err),
{
    match get_result(cl_engine_field::CL_ENGINE_DB_TIME, err, NativeValue::Num(number)) {
        Ok(EngineValue::Time(value)) => Ok(value),
        Ok(_) => Err(ClamError::new(cl_error::CL_EARG)),
        Err(e) => Err(e),
    }
}

/// What the native getter returns for a property that holds what `arg`
/// stored: the number itself, or the bytes of the text up to its
/// terminator.
pub open spec fn stored(arg: NativeValueView) -> NativeValueView {
    match arg {
        NativeValueView::Num(n) => NativeValueView::Num(n),
        NativeValueView::Str(bytes) => NativeValueView::Str(c_read(bytes)),
    }
}

proof fn lemma_numbers_round_trip(a: u32, b: u64)
    by (bit_vector)
    ensures
        (a as i64) as u32 == a,
        (b as i64) as u64 == b,
{
}

/// A property value that was written is read back unchanged: for a value of
/// the property's kind, the argument that `set_request` hands to the native
/// setter, stored and returned by the getter, is read by `get_result`
/// to the value that was written.
pub proof fn lemma_property_round_trip(field: cl_engine_field, value: EngineValueView)
    requires
        value.kind() == spec_field_type(field),
        passable(value),
    ensures
        reply_fits(spec_field_type(field), stored(native_form(value))),
        valid_utf8(reply_bytes(stored(native_form(value)))),
        value_of(spec_field_type(field), stored(native_form(value))) == value,
{
    match value {
        EngineValueView::U32(v) => {
            lemma_numbers_round_trip(v, 0);
        },
        EngineValueView::U64(v) => {
            lemma_numbers_round_trip(0, v);
        },
        EngineValueView::String(s) => {
            lemma_c_string_reads_back(encode_utf8(s));
            encode_utf8_valid_utf8(s);
            encode_utf8_decode_utf8(s);
        },
        EngineValueView::Time(t) => {},
    }
}

} // verus!
