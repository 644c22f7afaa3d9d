//! Plain-data mirror of the native interface: status codes, database options
//! and the scan option record with its bit assignments.

#![allow(non_camel_case_types)]

use vstd::prelude::*;

verus! {

/// Default flags for the native library's initialisation call.
pub const CL_INIT_DEFAULT: u32 = 0x0;

/// Load phishing signatures.
pub const CL_DB_PHISHING: u32 = 0x2;

/// Load the phishing URL lists.
pub const CL_DB_PHISHING_URLS: u32 = 0x8;

/// Load bytecode signatures.
pub const CL_DB_BYTECODE: u32 = 0x2000;

/// The recommended database options: phishing signatures, phishing URLs and
/// bytecode.
pub const CL_DB_STDOPT: u32 = 0x200a;

/// The recommended database options are the union of the three named bits.
pub proof fn lemma_db_stdopt()
    ensures
        CL_DB_STDOPT == CL_DB_PHISHING | CL_DB_PHISHING_URLS | CL_DB_BYTECODE,
{
    assert(0x200au32 == 0x2u32 | 0x8u32 | 0x2000u32) by (bit_vector);
}

/// Scan in all-match mode.
pub const CL_SCAN_GENERAL_ALLMATCHES: u32 = 0x1;

/// Collect metadata.
pub const CL_SCAN_GENERAL_COLLECT_METADATA: u32 = 0x2;

/// Enable heuristic alerts.
pub const CL_SCAN_GENERAL_HEURISTICS: u32 = 0x4;

/// Allow a heuristic match to take precedence.
pub const CL_SCAN_GENERAL_HEURISTIC_PRECEDENCE: u32 = 0x8;

/// The scanner will not have read access to files.
pub const CL_SCAN_GENERAL_UNPRIVILEGED: u32 = 0x10;

/// Scan inside archives.
pub const CL_SCAN_PARSE_ARCHIVE: u32 = 0x1;

/// Parse ELF files.
pub const CL_SCAN_PARSE_ELF: u32 = 0x2;

/// Scan inside PDF files.
pub const CL_SCAN_PARSE_PDF: u32 = 0x4;

/// Scan inside SWF files.
pub const CL_SCAN_PARSE_SWF: u32 = 0x8;

/// Scan HWP3 files.
pub const CL_SCAN_PARSE_HWP3: u32 = 0x10;

/// Scan XML documents.
pub const CL_SCAN_PARSE_XMLDOCS: u32 = 0x20;

/// Parse mail files.
pub const CL_SCAN_PARSE_MAIL: u32 = 0x40;

/// Parse OLE2 containers.
pub const CL_SCAN_PARSE_OLE2: u32 = 0x80;

/// Normalise HTML.
pub const CL_SCAN_PARSE_HTML: u32 = 0x100;

/// Parse portable executables.
pub const CL_SCAN_PARSE_PE: u32 = 0x200;

/// Alert on broken PE and broken ELF files.
pub const CL_SCAN_HEURISTIC_BROKEN: u32 = 0x2;

/// Alert when a file exceeds the scan limits.
pub const CL_SCAN_HEURISTIC_EXCEEDS_MAX: u32 = 0x4;

/// Alert on SSL mismatches.
pub const CL_SCAN_HEURISTIC_PHISHING_SSL_MISMATCH: u32 = 0x8;

/// Alert on cloaked URLs in mail.
pub const CL_SCAN_HEURISTIC_PHISHING_CLOAK: u32 = 0x10;

/// Alert on OLE2 files that contain macros.
pub const CL_SCAN_HEURISTIC_MACROS: u32 = 0x20;

/// Alert on encrypted archives.
pub const CL_SCAN_HEURISTIC_ENCRYPTED_ARCHIVE: u32 = 0x40;

/// Alert on encrypted documents.
pub const CL_SCAN_HEURISTIC_ENCRYPTED_DOC: u32 = 0x80;

/// Alert on partition tables whose sizes make no sense.
pub const CL_SCAN_HEURISTIC_PARTITION_INTXN: u32 = 0x100;

/// Alert on personal information.
pub const CL_SCAN_HEURISTIC_STRUCTURED: u32 = 0x200;

/// Alert on social security numbers.
pub const CL_SCAN_HEURISTIC_STRUCTURED_SSN_NORMAL: u32 = 0x400;

/// Alert on stripped social security numbers.
pub const CL_SCAN_HEURISTIC_STRUCTURED_SSN_STRIPPED: u32 = 0x800;

/// Alert on credit card numbers.
pub const CL_SCAN_HEURISTIC_STRUCTURED_CC: u32 = 0x1000;

/// Scan messages that are split over many mails.
pub const CL_SCAN_MAIL_PARTIAL_MESSAGE: u32 = 0x1;

/// Collect hashes; for internal use.
pub const CL_SCAN_DEV_COLLECT_SHA: u32 = 0x1;

/// Collect performance timings.
pub const CL_SCAN_DEV_COLLECT_PERFORMANCE_INFO: u32 = 0x2;

/// The option record that every scan call takes by reference: five option
/// words, in the field order of the native record.
#[derive(Clone, Copy, Debug, PartialEq, Eq, Structural)]
pub struct cl_scan_options {
    /// General options.
    pub general: u32,
    /// Which file types are parsed.
    pub parse: u32,
    /// Which heuristic alerts are raised.
    pub heuristic: u32,
    /// Mail scanning options.
    pub mail: u32,
    /// Developer options.
    pub dev: u32,
}

impl cl_scan_options {
    /// The standard options: every parser enabled, nothing else set.
    pub open spec fn standard() -> cl_scan_options {
        cl_scan_options { general: 0, parse: 0x3ff, heuristic: 0, mail: 0, dev: 0 }
    }
}

impl Default for cl_scan_options {
    /// The standard options.
    fn default() -> (options: Self)
        ensures
            options == cl_scan_options::standard(),
    {
        cl_scan_options { general: 0, parse: 0x3ff, heuristic: 0, mail: 0, dev: 0 }
    }
}

/// The standard options enable exactly the ten parsers: archive, mail, OLE2,
/// PDF, HTML, PE, ELF, SWF, XML documents and HWP3.
pub proof fn lemma_standard_options()
    ensures
        cl_scan_options::standard().parse == CL_SCAN_PARSE_ARCHIVE | CL_SCAN_PARSE_MAIL
            | CL_SCAN_PARSE_OLE2 | CL_SCAN_PARSE_PDF | CL_SCAN_PARSE_HTML | CL_SCAN_PARSE_PE
            | CL_SCAN_PARSE_ELF | CL_SCAN_PARSE_SWF | CL_SCAN_PARSE_XMLDOCS | CL_SCAN_PARSE_HWP3,
        cl_scan_options::standard().general == 0,
        cl_scan_options::standard().heuristic == 0,
        cl_scan_options::standard().mail == 0,
        cl_scan_options::standard().dev == 0,
{
    assert(0x3ffu32 == 0x1u32 | 0x40u32 | 0x80u32 | 0x4u32 | 0x100u32 | 0x200u32 | 0x2u32 | 0x8u32
        | 0x20u32 | 0x10u32) by (bit_vector);
}

/// The status that every native call returns.
///
/// The variants stand in the order of their numeric codes, starting at zero.
#[derive(Clone, Copy, Debug, PartialEq, Eq, Hash, Structural)]
pub enum cl_error {
    /// The call succeeded; for a scan, nothing was found.
    CL_SUCCESS,
    /// A scan found a signature match.
    CL_VIRUS,
    /// A null argument was passed.
    CL_ENULLARG,
    /// An argument was invalid.
    CL_EARG,
    /// A database is malformed.
    CL_EMALFDB,
    /// A database container is broken.
    CL_ECVD,
    /// A database failed verification.
    CL_EVERIFY,
    /// A database could not be unpacked.
    CL_EUNPACK,
    /// A file or directory could not be opened.
    CL_EOPEN,
    /// A file or directory could not be created.
    CL_ECREAT,
    /// A file or directory could not be removed.
    CL_EUNLINK,
    /// A file could not be examined.
    CL_ESTAT,
    /// A read failed.
    CL_EREAD,
    /// A seek failed.
    CL_ESEEK,
    /// A write failed.
    CL_EWRITE,
    /// A descriptor could not be duplicated.
    CL_EDUP,
    /// Access was denied.
    CL_EACCES,
    /// A temporary file could not be created.
    CL_ETMPFILE,
    /// A temporary directory could not be created.
    CL_ETMPDIR,
    /// A memory mapping failed.
    CL_EMAP,
    /// Memory could not be allocated.
    CL_EMEM,
    /// A time limit was reached.
    CL_ETIMEOUT,
    /// The scan was cut short because the input is trusted.
    CL_BREAK,
    /// The recursion limit was exceeded.
    CL_EMAXREC,
    /// The size limit was exceeded.
    CL_EMAXSIZE,
    /// The file count limit was exceeded.
    CL_EMAXFILES,
    /// The data is in a bad format or broken.
    CL_EFORMAT,
    /// The data could not be parsed.
    CL_EPARSE,
    /// Bytecode could not be run.
    CL_EBYTECODE,
    /// A bytecode self test failed.
    CL_EBYTECODE_TESTFAIL,
    /// A lock could not be taken.
    CL_ELOCK,
    /// The engine is busy.
    CL_EBUSY,
    /// The engine is in the wrong state for the call.
    CL_ESTATE,
    /// One past the last status code; never returned by a call.
    CL_ELAST_ERROR,
}

impl cl_error {
    /// The numeric code of a status on the native side.
    pub open spec fn spec_code(self) -> int {
        match self {
            cl_error::CL_SUCCESS => 0,
            cl_error::CL_VIRUS => 1,
            cl_error::CL_ENULLARG => 2,
            cl_error::CL_EARG => 3,
            cl_error::CL_EMALFDB => 4,
            cl_error::CL_ECVD => 5,
            cl_error::CL_EVERIFY => 6,
            cl_error::CL_EUNPACK => 7,
            cl_error::CL_EOPEN => 8,
            cl_error::CL_ECREAT => 9,
            cl_error::CL_EUNLINK => 10,
            cl_error::CL_ESTAT => 11,
            cl_error::CL_EREAD => 12,
            cl_error::CL_ESEEK => 13,
            cl_error::CL_EWRITE => 14,
            cl_error::CL_EDUP => 15,
            cl_error::CL_EACCES => 16,
            cl_error::CL_ETMPFILE => 17,
            cl_error::CL_ETMPDIR => 18,
            cl_error::CL_EMAP => 19,
            cl_error::CL_EMEM => 20,
            cl_error::CL_ETIMEOUT => 21,
            cl_error::CL_BREAK => 22,
            cl_error::CL_EMAXREC => 23,
            cl_error::CL_EMAXSIZE => 24,
            cl_error::CL_EMAXFILES => 25,
            cl_error::CL_EFORMAT => 26,
            cl_error::CL_EPARSE => 27,
            cl_error::CL_EBYTECODE => 28,
            cl_error::CL_EBYTECODE_TESTFAIL => 29,
            cl_error::CL_ELOCK => 30,
            cl_error::CL_EBUSY => 31,
            cl_error::CL_ESTATE => 32,
            cl_error::CL_ELAST_ERROR => 33,
        }
    }

    /// The status with the given numeric code, if there is one.
    pub open spec fn spec_from_code(code: int) -> Option<cl_error> {
        if code == 0 {
            Some(cl_error::CL_SUCCESS)
        } else if code == 1 {
            Some(cl_error::CL_VIRUS)
        } else if code == 2 {
            Some(cl_error::CL_ENULLARG)
        } else if code == 3 {
            Some(cl_error::CL_EARG)
        } else if code == 4 {
            Some(cl_error::CL_EMALFDB)
        } else if code == 5 {
            Some(cl_error::CL_ECVD)
        } else if code == 6 {
            Some(cl_error::CL_EVERIFY)
        } else if code == 7 {
            Some(cl_error::CL_EUNPACK)
        } else if code == 8 {
            Some(cl_error::CL_EOPEN)
        } else if code == 9 {
            Some(cl_error::CL_ECREAT)
        } else if code == 10 {
            Some(cl_error::CL_EUNLINK)
        } else if code == 11 {
            Some(cl_error::CL_ESTAT)
        } else if code == 12 {
            Some(cl_error::CL_EREAD)
        } else if code == 13 {
            Some(cl_error::CL_ESEEK)
        } else if code == 14 {
            Some(cl_error::CL_EWRITE)
        } else if code == 15 {
            Some(cl_error::CL_EDUP)
        } else if code == 16 {
            Some(cl_error::CL_EACCES)
        } else if code == 17 {
            Some(cl_error::CL_ETMPFILE)
        } else if code == 18 {
            Some(cl_error::CL_ETMPDIR)
        } else if code == 19 {
            Some(cl_error::CL_EMAP)
        } else if code == 20 {
            Some(cl_error::CL_EMEM)
        } else if code == 21 {
            Some(cl_error::CL_ETIMEOUT)
        } else if code == 22 {
            Some(cl_error::CL_BREAK)
        } else if code == 23 {
            Some(cl_error::CL_EMAXREC)
        } else if code == 24 {
            Some(cl_error::CL_EMAXSIZE)
        } else if code == 25 {
            Some(cl_error::CL_EMAXFILES)
        } else if code == 26 {
            Some(cl_error::CL_EFORMAT)
        } else if code == 27 {
            Some(cl_error::CL_EPARSE)
        } else if code == 28 {
            Some(cl_error::CL_EBYTECODE)
        } else if code == 29 {
            Some(cl_error::CL_EBYTECODE_TESTFAIL)
        } else if code == 30 {
            Some(cl_error::CL_ELOCK)
        } else if code == 31 {
            Some(cl_error::CL_EBUSY)
        } else if code == 32 {
            Some(cl_error::CL_ESTATE)
        } else if code == 33 {
            Some(cl_error::CL_ELAST_ERROR)
        } else {
            None
        }
    }

    /// The status of a scan that found nothing, which is the status of a
    /// call that succeeded.
    pub const CL_CLEAN: cl_error = cl_error::CL_SUCCESS;

    /// The numeric code of this status.
    pub fn code(self) -> (code: i32)
        ensures
            code == self.spec_code(),
            0 <= code <= 33,
    {
        match self {
            cl_error::CL_SUCCESS => 0,
            cl_error::CL_VIRUS => 1,
            cl_error::CL_ENULLARG => 2,
            cl_error::CL_EARG => 3,
            cl_error::CL_EMALFDB => 4,
            cl_error::CL_ECVD => 5,
            cl_error::CL_EVERIFY => 6,
            cl_error::CL_EUNPACK => 7,
            cl_error::CL_EOPEN => 8,
            cl_error::CL_ECREAT => 9,
            cl_error::CL_EUNLINK => 10,
            cl_error::CL_ESTAT => 11,
            cl_error::CL_EREAD => 12,
            cl_error::CL_ESEEK => 13,
            cl_error::CL_EWRITE => 14,
            cl_error::CL_EDUP => 15,
            cl_error::CL_EACCES => 16,
            cl_error::CL_ETMPFILE => 17,
            cl_error::CL_ETMPDIR => 18,
            cl_error::CL_EMAP => 19,
            cl_error::CL_EMEM => 20,
            cl_error::CL_ETIMEOUT => 21,
            cl_error::CL_BREAK => 22,
            cl_error::CL_EMAXREC => 23,
            cl_error::CL_EMAXSIZE => 24,
            cl_error::CL_EMAXFILES => 25,
            cl_error::CL_EFORMAT => 26,
            cl_error::CL_EPARSE => 27,
            cl_error::CL_EBYTECODE => 28,
            cl_error::CL_EBYTECODE_TESTFAIL => 29,
            cl_error::CL_ELOCK => 30,
            cl_error::CL_EBUSY => 31,
            cl_error::CL_ESTATE => 32,
            cl_error::CL_ELAST_ERROR => 33,
        }
    }

    /// Reads a numeric code as a status. Codes outside the table give `None`.
    pub fn from_code(code: i32) -> (status: Option<cl_error>)
        ensures
            status == Self::spec_from_code(code as int),
            status is Some <==> 0 <= code <= 33,
            status matches Some(s) ==> s.spec_code() == code,
    {
        match code {
            0 => Some(cl_error::CL_SUCCESS),
            1 => Some(cl_error::CL_VIRUS),
            2 => Some(cl_error::CL_ENULLARG),
            3 => Some(cl_error::CL_EARG),
            4 => Some(cl_error::CL_EMALFDB),
            5 => Some(cl_error::CL_ECVD),
            6 => Some(cl_error::CL_EVERIFY),
            7 => Some(cl_error::CL_EUNPACK),
            8 => Some(cl_error::CL_EOPEN),
            9 => Some(cl_error::CL_ECREAT),
            10 => Some(cl_error::CL_EUNLINK),
            11 => Some(cl_error::CL_ESTAT),
            12 => Some(cl_error::CL_EREAD),
            13 => Some(cl_error::CL_ESEEK),
            14 => Some(cl_error::CL_EWRITE),
            15 => Some(cl_error::CL_EDUP),
            16 => Some(cl_error::CL_EACCES),
            17 => Some(cl_error::CL_ETMPFILE),
            18 => Some(cl_error::CL_ETMPDIR),
            19 => Some(cl_error::CL_EMAP),
            20 => Some(cl_error::CL_EMEM),
            21 => Some(cl_error::CL_ETIMEOUT),
            22 => Some(cl_error::CL_BREAK),
            23 => Some(cl_error::CL_EMAXREC),
            24 => Some(cl_error::CL_EMAXSIZE),
            25 => Some(cl_error::CL_EMAXFILES),
            26 => Some(cl_error::CL_EFORMAT),
            27 => Some(cl_error::CL_EPARSE),
            28 => Some(cl_error::CL_EBYTECODE),
            29 => Some(cl_error::CL_EBYTECODE_TESTFAIL),
            30 => Some(cl_error::CL_ELOCK),
            31 => Some(cl_error::CL_EBUSY),
            32 => Some(cl_error::CL_ESTATE),
            33 => Some(cl_error::CL_ELAST_ERROR),
            _ => None,
        }
    }
}

/// The key of a tunable engine property.
#[derive(Clone, Copy, Debug, PartialEq, Eq, Hash, Structural)]
pub enum cl_engine_field {
    /// The most data scanned of one file.
    CL_ENGINE_MAX_SCANSIZE,
    /// The largest file that is scanned.
    CL_ENGINE_MAX_FILESIZE,
    /// The deepest nesting of archives that is followed.
    CL_ENGINE_MAX_RECURSION,
    /// The most files scanned within one archive.
    CL_ENGINE_MAX_FILES,
    /// The fewest credit card numbers that raise an alert.
    CL_ENGINE_MIN_CC_COUNT,
    /// The fewest social security numbers that raise an alert.
    CL_ENGINE_MIN_SSN_COUNT,
    /// The categories of possibly unwanted applications.
    CL_ENGINE_PUA_CATEGORIES,
    /// The options that the databases were loaded with.
    CL_ENGINE_DB_OPTIONS,
    /// The version of the loaded databases.
    CL_ENGINE_DB_VERSION,
    /// The time at which the loaded databases were built.
    CL_ENGINE_DB_TIME,
    /// Use the Aho-Corasick matcher only.
    CL_ENGINE_AC_ONLY,
    /// The least depth of the Aho-Corasick trie.
    CL_ENGINE_AC_MINDEPTH,
    /// The greatest depth of the Aho-Corasick trie.
    CL_ENGINE_AC_MAXDEPTH,
    /// The directory for temporary files.
    CL_ENGINE_TMPDIR,
    /// Keep temporary files.
    CL_ENGINE_KEEPTMP,
    /// The trust level for bytecode.
    CL_ENGINE_BYTECODE_SECURITY,
    /// The time limit for bytecode.
    CL_ENGINE_BYTECODE_TIMEOUT,
    /// How bytecode is run.
    CL_ENGINE_BYTECODE_MODE,
    /// The largest file searched for embedded executables.
    CL_ENGINE_MAX_EMBEDDEDPE,
    /// The largest HTML file that is normalised.
    CL_ENGINE_MAX_HTMLNORMALIZE,
    /// The largest normalised HTML file that is scanned.
    CL_ENGINE_MAX_HTMLNOTAGS,
    /// The largest script that is normalised.
    CL_ENGINE_MAX_SCRIPTNORMALIZE,
    /// The largest file in which zip archives are searched for.
    CL_ENGINE_MAX_ZIPTYPERCG,
    /// Write every scanned part to disk.
    CL_ENGINE_FORCETODISK,
    /// Do not cache clean results.
    CL_ENGINE_DISABLE_CACHE,
    /// Do not collect statistics on executables.
    CL_ENGINE_DISABLE_PE_STATS,
    /// The time limit for sending statistics.
    CL_ENGINE_STATS_TIMEOUT,
    /// The most partitions scanned of one disk image.
    CL_ENGINE_MAX_PARTITIONS,
    /// The most icons scanned of one executable.
    CL_ENGINE_MAX_ICONSPE,
    /// The deepest nesting followed in HWP3 files.
    CL_ENGINE_MAX_RECHWP3,
    /// The time limit of one scan.
    CL_ENGINE_MAX_SCANTIME,
    /// The match limit for regular expressions.
    CL_ENGINE_PCRE_MATCH_LIMIT,
    /// The recursion limit for regular expressions.
    CL_ENGINE_PCRE_RECMATCH_LIMIT,
    /// The largest file matched against regular expressions.
    CL_ENGINE_PCRE_MAX_FILESIZE,
    /// Do not check certificates of executables.
    CL_ENGINE_DISABLE_PE_CERTS,
    /// Print the certificates of executables.
    CL_ENGINE_PE_DUMPCERTS,
}

/// Reading back the code of a status gives that status, and two statuses
/// with the same code are the same status.
pub proof fn lemma_code_round_trip(status: cl_error)
    ensures
        cl_error::spec_from_code(status.spec_code()) == Some(status),
        forall|other: cl_error| other.spec_code() == status.spec_code() ==> other == status,
{
}

} // verus!
