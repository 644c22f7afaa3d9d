//! Scan settings: five typed flag groups over the native option record, a
//! settings value that is passed to every scan, and a builder that starts
//! from the standard options.

use vstd::prelude::*;
use vstd::string::*;

use crate::ffi::cl_scan_options;
use crate::ffi::{
    CL_SCAN_GENERAL_ALLMATCHES,
    CL_SCAN_GENERAL_COLLECT_METADATA,
    CL_SCAN_GENERAL_HEURISTICS,
    CL_SCAN_GENERAL_HEURISTIC_PRECEDENCE,
    CL_SCAN_GENERAL_UNPRIVILEGED,
    CL_SCAN_PARSE_ARCHIVE,
    CL_SCAN_PARSE_ELF,
    CL_SCAN_PARSE_PDF,
    CL_SCAN_PARSE_SWF,
    CL_SCAN_PARSE_HWP3,
    CL_SCAN_PARSE_XMLDOCS,
    CL_SCAN_PARSE_MAIL,
    CL_SCAN_PARSE_OLE2,
    CL_SCAN_PARSE_HTML,
    CL_SCAN_PARSE_PE,
    CL_SCAN_HEURISTIC_BROKEN,
    CL_SCAN_HEURISTIC_EXCEEDS_MAX,
    CL_SCAN_HEURISTIC_PHISHING_SSL_MISMATCH,
    CL_SCAN_HEURISTIC_PHISHING_CLOAK,
    CL_SCAN_HEURISTIC_MACROS,
    CL_SCAN_HEURISTIC_ENCRYPTED_ARCHIVE,
    CL_SCAN_HEURISTIC_ENCRYPTED_DOC,
    CL_SCAN_HEURISTIC_PARTITION_INTXN,
    CL_SCAN_HEURISTIC_STRUCTURED,
    CL_SCAN_HEURISTIC_STRUCTURED_SSN_NORMAL,
    CL_SCAN_HEURISTIC_STRUCTURED_SSN_STRIPPED,
    CL_SCAN_HEURISTIC_STRUCTURED_CC,
    CL_SCAN_MAIL_PARTIAL_MESSAGE,
    CL_SCAN_DEV_COLLECT_SHA,
    CL_SCAN_DEV_COLLECT_PERFORMANCE_INFO,
};

verus! {

/// Every named bit of the general word.
pub const GENERAL_MASK: u32 = 0x1f;

/// Every named bit of the parse word.
pub const PARSE_MASK: u32 = 0x3ff;

/// Every named bit of the heuristic word.
pub const HEURISTIC_MASK: u32 = 0x1ffe;

/// Every named bit of the mail word.
pub const MAIL_MASK: u32 = 0x1;

/// Every named bit of the dev word.
pub const DEV_MASK: u32 = 0x3;

/// The five words of the option record.
#[derive(Clone, Copy, Debug, PartialEq, Eq, Structural)]
pub enum ScanGroup {
    /// General options.
    General,
    /// Parsers.
    Parse,
    /// Heuristic alerts.
    Heuristic,
    /// Mail options.
    Mail,
    /// Developer options.
    Dev,
}

/// One word of an option record.
pub open spec fn group_word(options: cl_scan_options, group: ScanGroup) -> u32 {
    match group {
        ScanGroup::General => options.general,
        ScanGroup::Parse => options.parse,
        ScanGroup::Heuristic => options.heuristic,
        ScanGroup::Mail => options.mail,
        ScanGroup::Dev => options.dev,
    }
}

/// The record with one word replaced.
pub open spec fn with_word(
    options: cl_scan_options,
    group: ScanGroup,
    word: u32,
) -> cl_scan_options {
    match group {
        ScanGroup::General => cl_scan_options { general: word, ..options },
        ScanGroup::Parse => cl_scan_options { parse: word, ..options },
        ScanGroup::Heuristic => cl_scan_options { heuristic: word, ..options },
        ScanGroup::Mail => cl_scan_options { mail: word, ..options },
        ScanGroup::Dev => cl_scan_options { dev: word, ..options },
    }
}

/// The record with `bits` set in one word and every other bit as it was.
pub open spec fn with_bits(
    options: cl_scan_options,
    group: ScanGroup,
    bits: u32,
) -> cl_scan_options {
    with_word(options, group, group_word(options, group) | bits)
}

/// True when a word holds named bits only.
pub open spec fn known_bits(word: u32, mask: u32) -> bool {
    word & !mask == 0
}

/// True when every word of the record holds named bits only.
pub open spec fn known_options(options: cl_scan_options) -> bool {
    &&& known_bits(options.general, GENERAL_MASK)
    &&& known_bits(options.parse, PARSE_MASK)
    &&& known_bits(options.heuristic, HEURISTIC_MASK)
    &&& known_bits(options.mail, MAIL_MASK)
    &&& known_bits(options.dev, DEV_MASK)
}

/// Setting named bits in a word of named bits leaves a word of named bits.
pub proof fn lemma_union_known(a: u32, b: u32, mask: u32)
    by (bit_vector)
    requires
        a & !mask == 0,
        b & !mask == 0,
    ensures
        (a | b) & !mask == 0,
{
}

/// Every named bit of the general word lies in its mask, the mask holds nothing else,
/// and the empty word is known.
pub proof fn lemma_general_bits()
    ensures
        known_bits(CL_SCAN_GENERAL_ALLMATCHES, GENERAL_MASK),
        known_bits(CL_SCAN_GENERAL_COLLECT_METADATA, GENERAL_MASK),
        known_bits(CL_SCAN_GENERAL_HEURISTICS, GENERAL_MASK),
        known_bits(CL_SCAN_GENERAL_HEURISTIC_PRECEDENCE, GENERAL_MASK),
        known_bits(CL_SCAN_GENERAL_UNPRIVILEGED, GENERAL_MASK),
        known_bits(0, GENERAL_MASK),
        known_bits(GENERAL_MASK, GENERAL_MASK),
        GENERAL_MASK == CL_SCAN_GENERAL_ALLMATCHES
            | CL_SCAN_GENERAL_COLLECT_METADATA
            | CL_SCAN_GENERAL_HEURISTICS
            | CL_SCAN_GENERAL_HEURISTIC_PRECEDENCE
            | CL_SCAN_GENERAL_UNPRIVILEGED,
{
    assert(0x1u32 & !0x1fu32 == 0
        && 0x2u32 & !0x1fu32 == 0
        && 0x4u32 & !0x1fu32 == 0
        && 0x8u32 & !0x1fu32 == 0
        && 0x10u32 & !0x1fu32 == 0
        && 0u32 & !0x1fu32 == 0
        && 0x1fu32 & !0x1fu32 == 0
        && 0x1fu32 == 0x1u32 | 0x2u32 | 0x4u32 | 0x8u32 | 0x10u32) by (bit_vector);
}

/// Every named bit of the parse word lies in its mask, the mask holds nothing else,
/// and the empty word is known.
pub proof fn lemma_parse_bits()
    ensures
        known_bits(CL_SCAN_PARSE_ARCHIVE, PARSE_MASK),
        known_bits(CL_SCAN_PARSE_ELF, PARSE_MASK),
        known_bits(CL_SCAN_PARSE_PDF, PARSE_MASK),
        known_bits(CL_SCAN_PARSE_SWF, PARSE_MASK),
        known_bits(CL_SCAN_PARSE_HWP3, PARSE_MASK),
        known_bits(CL_SCAN_PARSE_XMLDOCS, PARSE_MASK),
        known_bits(CL_SCAN_PARSE_MAIL, PARSE_MASK),
        known_bits(CL_SCAN_PARSE_OLE2, PARSE_MASK),
        known_bits(CL_SCAN_PARSE_HTML, PARSE_MASK),
        known_bits(CL_SCAN_PARSE_PE, PARSE_MASK),
        known_bits(0, PARSE_MASK),
        known_bits(PARSE_MASK, PARSE_MASK),
        PARSE_MASK == CL_SCAN_PARSE_ARCHIVE
            | CL_SCAN_PARSE_ELF
            | CL_SCAN_PARSE_PDF
            | CL_SCAN_PARSE_SWF
            | CL_SCAN_PARSE_HWP3
            | CL_SCAN_PARSE_XMLDOCS
            | CL_SCAN_PARSE_MAIL
            | CL_SCAN_PARSE_OLE2
            | CL_SCAN_PARSE_HTML
            | CL_SCAN_PARSE_PE,
{
    assert(0x1u32 & !0x3ffu32 == 0
        && 0x2u32 & !0x3ffu32 == 0
        && 0x4u32 & !0x3ffu32 == 0
        && 0x8u32 & !0x3ffu32 == 0
        && 0x10u32 & !0x3ffu32 == 0
        && 0x20u32 & !0x3ffu32 == 0
        && 0x40u32 & !0x3ffu32 == 0
        && 0x80u32 & !0x3ffu32 == 0
        && 0x100u32 & !0x3ffu32 == 0
        && 0x200u32 & !0x3ffu32 == 0
        && 0u32 & !0x3ffu32 == 0
        && 0x3ffu32 & !0x3ffu32 == 0
        && 0x3ffu32 == 0x1u32 | 0x2u32 | 0x4u32 | 0x8u32 | 0x10u32 | 0x20u32 | 0x40u32
            | 0x80u32 | 0x100u32 | 0x200u32) by (bit_vector);
}

/// Every named bit of the heuristic word lies in its mask, the mask holds nothing else,
/// and the empty word is known.
pub proof fn lemma_heuristic_bits()
    ensures
        known_bits(CL_SCAN_HEURISTIC_BROKEN, HEURISTIC_MASK),
        known_bits(CL_SCAN_HEURISTIC_EXCEEDS_MAX, HEURISTIC_MASK),
        known_bits(CL_SCAN_HEURISTIC_PHISHING_SSL_MISMATCH, HEURISTIC_MASK),
        known_bits(CL_SCAN_HEURISTIC_PHISHING_CLOAK, HEURISTIC_MASK),
        known_bits(CL_SCAN_HEURISTIC_MACROS, HEURISTIC_MASK),
        known_bits(CL_SCAN_HEURISTIC_ENCRYPTED_ARCHIVE, HEURISTIC_MASK),
        known_bits(CL_SCAN_HEURISTIC_ENCRYPTED_DOC, HEURISTIC_MASK),
        known_bits(CL_SCAN_HEURISTIC_PARTITION_INTXN, HEURISTIC_MASK),
        known_bits(CL_SCAN_HEURISTIC_STRUCTURED, HEURISTIC_MASK),
        known_bits(CL_SCAN_HEURISTIC_STRUCTURED_SSN_NORMAL, HEURISTIC_MASK),
        known_bits(CL_SCAN_HEURISTIC_STRUCTURED_SSN_STRIPPED, HEURISTIC_MASK),
        known_bits(CL_SCAN_HEURISTIC_STRUCTURED_CC, HEURISTIC_MASK),
        known_bits(0, HEURISTIC_MASK),
        known_bits(HEURISTIC_MASK, HEURISTIC_MASK),
        HEURISTIC_MASK == CL_SCAN_HEURISTIC_BROKEN
            | CL_SCAN_HEURISTIC_EXCEEDS_MAX
            | CL_SCAN_HEURISTIC_PHISHING_SSL_MISMATCH
            | CL_SCAN_HEURISTIC_PHISHING_CLOAK
            | CL_SCAN_HEURISTIC_MACROS
            | CL_SCAN_HEURISTIC_ENCRYPTED_ARCHIVE
            | CL_SCAN_HEURISTIC_ENCRYPTED_DOC
            | CL_SCAN_HEURISTIC_PARTITION_INTXN
            | CL_SCAN_HEURISTIC_STRUCTURED
            | CL_SCAN_HEURISTIC_STRUCTURED_SSN_NORMAL
            | CL_SCAN_HEURISTIC_STRUCTURED_SSN_STRIPPED
            | CL_SCAN_HEURISTIC_STRUCTURED_CC,
{
    assert(0x2u32 & !0x1ffeu32 == 0
        && 0x4u32 & !0x1ffeu32 == 0
        && 0x8u32 & !0x1ffeu32 == 0
        && 0x10u32 & !0x1ffeu32 == 0
        && 0x20u32 & !0x1ffeu32 == 0
        && 0x40u32 & !0x1ffeu32 == 0
        && 0x80u32 & !0x1ffeu32 == 0
        && 0x100u32 & !0x1ffeu32 == 0
        && 0x200u32 & !0x1ffeu32 == 0
        && 0x400u32 & !0x1ffeu32 == 0
        && 0x800u32 & !0x1ffeu32 == 0
        && 0x1000u32 & !0x1ffeu32 == 0
        && 0u32 & !0x1ffeu32 == 0
        && 0x1ffeu32 & !0x1ffeu32 == 0
        && 0x1ffeu32 == 0x2u32 | 0x4u32 | 0x8u32 | 0x10u32 | 0x20u32 | 0x40u32 | 0x80u32
            | 0x100u32 | 0x200u32 | 0x400u32 | 0x800u32 | 0x1000u32) by (bit_vector);
}

/// Every named bit of the mail word lies in its mask, the mask holds nothing else,
/// and the empty word is known.
pub proof fn lemma_mail_bits()
    ensures
        known_bits(CL_SCAN_MAIL_PARTIAL_MESSAGE, MAIL_MASK),
        known_bits(0, MAIL_MASK),
        known_bits(MAIL_MASK, MAIL_MASK),
        MAIL_MASK == CL_SCAN_MAIL_PARTIAL_MESSAGE,
{
    assert(0x1u32 & !0x1u32 == 0
        && 0u32 & !0x1u32 == 0
        && 0x1u32 & !0x1u32 == 0) by (bit_vector);
}

/// Every named bit of the dev word lies in its mask, the mask holds nothing else,
/// and the empty word is known.
pub proof fn lemma_dev_bits()
    ensures
        known_bits(CL_SCAN_DEV_COLLECT_SHA, DEV_MASK),
        known_bits(CL_SCAN_DEV_COLLECT_PERFORMANCE_INFO, DEV_MASK),
        known_bits(0, DEV_MASK),
        known_bits(DEV_MASK, DEV_MASK),
        DEV_MASK == CL_SCAN_DEV_COLLECT_SHA
            | CL_SCAN_DEV_COLLECT_PERFORMANCE_INFO,
{
    assert(0x1u32 & !0x3u32 == 0
        && 0x2u32 & !0x3u32 == 0
        && 0u32 & !0x3u32 == 0
        && 0x3u32 & !0x3u32 == 0
        && 0x3u32 == 0x1u32 | 0x2u32) by (bit_vector);
}

/// A set of general scan options.
#[derive(Clone, Copy, Debug, PartialEq, Eq, Hash, Structural)]
pub struct GeneralFlags {
    bits: u32,
}

impl View for GeneralFlags {
    type V = u32;

    /// The bits of the set.
    closed spec fn view(&self) -> u32 {
        self.bits
    }
}

impl GeneralFlags {
    #[verifier::type_invariant]
    spec fn named_bits_only(self) -> bool {
        known_bits(self.bits, GENERAL_MASK)
    }

    /// The set without any flag.
    pub fn empty() -> (flags: Self)
        ensures
            flags@ == 0,
    {
        proof {
            lemma_general_bits();
        }
        GeneralFlags { bits: 0 }
    }

    /// The set of every flag.
    pub fn all() -> (flags: Self)
        ensures
            flags@ == GENERAL_MASK,
    {
        proof {
            lemma_general_bits();
        }
        GeneralFlags { bits: GENERAL_MASK }
    }

    /// The bits of the set, which are named bits only.
    pub fn bits(&self) -> (bits: u32)
        ensures
            bits == self@,
            known_bits(bits, GENERAL_MASK),
    {
        proof {
            use_type_invariant(self);
        }
        self.bits
    }

    /// Reads a word as a set. A word with a bit that has no name is no set.
    pub fn from_bits(bits: u32) -> (flags: Option<Self>)
        ensures
            flags is Some <==> known_bits(bits, GENERAL_MASK),
            flags matches Some(f) ==> f@ == bits,
    {
        if bits & !GENERAL_MASK == 0 {
            Some(GeneralFlags { bits })
        } else {
            None
        }
    }

    /// True when every flag of `other` is in this set.
    pub fn contains(&self, other: Self) -> (held: bool)
        ensures
            held == (self@ & other@ == other@),
    {
        self.bits & other.bits == other.bits
    }

    /// The flags that are in either set.
    pub fn union(self, other: Self) -> (flags: Self)
        ensures
            flags@ == self@ | other@,
    {
        proof {
            use_type_invariant(self);
            use_type_invariant(other);
            lemma_union_known(self.bits, other.bits, GENERAL_MASK);
        }
        GeneralFlags { bits: self.bits | other.bits }
    }

    /// Scan in all-match mode.
    #[allow(non_snake_case)]
    pub fn CL_SCAN_GENERAL_ALLMATCHES() -> (flags: Self)
        ensures
            flags@ == CL_SCAN_GENERAL_ALLMATCHES,
    {
        proof {
            lemma_general_bits();
        }
        GeneralFlags { bits: CL_SCAN_GENERAL_ALLMATCHES }
    }

    /// Collect metadata.
    #[allow(non_snake_case)]
    pub fn CL_SCAN_GENERAL_COLLECT_METADATA() -> (flags: Self)
        ensures
            flags@ == CL_SCAN_GENERAL_COLLECT_METADATA,
    {
        proof {
            lemma_general_bits();
        }
        GeneralFlags { bits: CL_SCAN_GENERAL_COLLECT_METADATA }
    }

    /// Enable heuristic alerts.
    #[allow(non_snake_case)]
    pub fn CL_SCAN_GENERAL_HEURISTICS() -> (flags: Self)
        ensures
            flags@ == CL_SCAN_GENERAL_HEURISTICS,
    {
        proof {
            lemma_general_bits();
        }
        GeneralFlags { bits: CL_SCAN_GENERAL_HEURISTICS }
    }

    /// Allow a heuristic match to take precedence.
    #[allow(non_snake_case)]
    pub fn CL_SCAN_GENERAL_HEURISTIC_PRECEDENCE() -> (flags: Self)
        ensures
            flags@ == CL_SCAN_GENERAL_HEURISTIC_PRECEDENCE,
    {
        proof {
            lemma_general_bits();
        }
        GeneralFlags { bits: CL_SCAN_GENERAL_HEURISTIC_PRECEDENCE }
    }

    /// The scanner will not have read access to files.
    #[allow(non_snake_case)]
    pub fn CL_SCAN_GENERAL_UNPRIVILEGED() -> (flags: Self)
        ensures
            flags@ == CL_SCAN_GENERAL_UNPRIVILEGED,
    {
        proof {
            lemma_general_bits();
        }
        GeneralFlags { bits: CL_SCAN_GENERAL_UNPRIVILEGED }
    }
}

/// A set of parsers that a scan may use.
#[derive(Clone, Copy, Debug, PartialEq, Eq, Hash, Structural)]
pub struct ParseFlags {
    bits: u32,
}

impl View for ParseFlags {
    type V = u32;

    /// The bits of the set.
    closed spec fn view(&self) -> u32 {
        self.bits
    }
}

impl ParseFlags {
    #[verifier::type_invariant]
    spec fn named_bits_only(self) -> bool {
        known_bits(self.bits, PARSE_MASK)
    }

    /// The set without any flag.
    pub fn empty() -> (flags: Self)
        ensures
            flags@ == 0,
    {
        proof {
            lemma_parse_bits();
        }
        ParseFlags { bits: 0 }
    }

    /// The set of every flag.
    pub fn all() -> (flags: Self)
        ensures
            flags@ == PARSE_MASK,
    {
        proof {
            lemma_parse_bits();
        }
        ParseFlags { bits: PARSE_MASK }
    }

    /// The bits of the set, which are named bits only.
    pub fn bits(&self) -> (bits: u32)
        ensures
            bits == self@,
            known_bits(bits, PARSE_MASK),
    {
        proof {
            use_type_invariant(self);
        }
        self.bits
    }

    /// Reads a word as a set. A word with a bit that has no name is no set.
    pub fn from_bits(bits: u32) -> (flags: Option<Self>)
        ensures
            flags is Some <==> known_bits(bits, PARSE_MASK),
            flags matches Some(f) ==> f@ == bits,
    {
        if bits & !PARSE_MASK == 0 {
            Some(ParseFlags { bits })
        } else {
            None
        }
    }

    /// True when every flag of `other` is in this set.
    pub fn contains(&self, other: Self) -> (held: bool)
        ensures
            held == (self@ & other@ == other@),
    {
        self.bits & other.bits == other.bits
    }

    /// The flags that are in either set.
    pub fn union(self, other: Self) -> (flags: Self)
        ensures
            flags@ == self@ | other@,
    {
        proof {
            use_type_invariant(self);
            use_type_invariant(other);
            lemma_union_known(self.bits, other.bits, PARSE_MASK);
        }
        ParseFlags { bits: self.bits | other.bits }
    }

    /// Scan inside archives.
    #[allow(non_snake_case)]
    pub fn CL_SCAN_PARSE_ARCHIVE() -> (flags: Self)
        ensures
            flags@ == CL_SCAN_PARSE_ARCHIVE,
    {
        proof {
            lemma_parse_bits();
        }
        ParseFlags { bits: CL_SCAN_PARSE_ARCHIVE }
    }

    /// Parse ELF files.
    #[allow(non_snake_case)]
    pub fn CL_SCAN_PARSE_ELF() -> (flags: Self)
        ensures
            flags@ == CL_SCAN_PARSE_ELF,
    {
        proof {
            lemma_parse_bits();
        }
        ParseFlags { bits: CL_SCAN_PARSE_ELF }
    }

    /// Scan inside PDF files.
    #[allow(non_snake_case)]
    pub fn CL_SCAN_PARSE_PDF() -> (flags: Self)
        ensures
            flags@ == CL_SCAN_PARSE_PDF,
    {
        proof {
            lemma_parse_bits();
        }
        ParseFlags { bits: CL_SCAN_PARSE_PDF }
    }

    /// Scan inside SWF files.
    #[allow(non_snake_case)]
    pub fn CL_SCAN_PARSE_SWF() -> (flags: Self)
        ensures
            flags@ == CL_SCAN_PARSE_SWF,
    {
        proof {
            lemma_parse_bits();
        }
        ParseFlags { bits: CL_SCAN_PARSE_SWF }
    }

    /// Scan HWP3 files.
    #[allow(non_snake_case)]
    pub fn CL_SCAN_PARSE_HWP3() -> (flags: Self)
        ensures
            flags@ == CL_SCAN_PARSE_HWP3,
    {
        proof {
            lemma_parse_bits();
        }
        ParseFlags { bits: CL_SCAN_PARSE_HWP3 }
    }

    /// Scan XML documents.
    #[allow(non_snake_case)]
    pub fn CL_SCAN_PARSE_XMLDOCS() -> (flags: Self)
        ensures
            flags@ == CL_SCAN_PARSE_XMLDOCS,
    {
        proof {
            lemma_parse_bits();
        }
        ParseFlags { bits: CL_SCAN_PARSE_XMLDOCS }
    }

    /// Parse mail files.
    #[allow(non_snake_case)]
    pub fn CL_SCAN_PARSE_MAIL() -> (flags: Self)
        ensures
            flags@ == CL_SCAN_PARSE_MAIL,
    {
        proof {
            lemma_parse_bits();
        }
        ParseFlags { bits: CL_SCAN_PARSE_MAIL }
    }

    /// Parse OLE2 containers.
    #[allow(non_snake_case)]
    pub fn CL_SCAN_PARSE_OLE2() -> (flags: Self)
        ensures
            flags@ == CL_SCAN_PARSE_OLE2,
    {
        proof {
            lemma_parse_bits();
        }
        ParseFlags { bits: CL_SCAN_PARSE_OLE2 }
    }

    /// Normalise HTML.
    #[allow(non_snake_case)]
    pub fn CL_SCAN_PARSE_HTML() -> (flags: Self)
        ensures
            flags@ == CL_SCAN_PARSE_HTML,
    {
        proof {
            lemma_parse_bits();
        }
        ParseFlags { bits: CL_SCAN_PARSE_HTML }
    }

    /// Parse portable executables.
    #[allow(non_snake_case)]
    pub fn CL_SCAN_PARSE_PE() -> (flags: Self)
        ensures
            flags@ == CL_SCAN_PARSE_PE,
    {
        proof {
            lemma_parse_bits();
        }
        ParseFlags { bits: CL_SCAN_PARSE_PE }
    }
}

/// A set of heuristic alerts.
#[derive(Clone, Copy, Debug, PartialEq, Eq, Hash, Structural)]
pub struct HeuristicFlags {
    bits: u32,
}

impl View for HeuristicFlags {
    type V = u32;

    /// The bits of the set.
    closed spec fn view(&self) -> u32 {
        self.bits
    }
}

impl HeuristicFlags {
    #[verifier::type_invariant]
    spec fn named_bits_only(self) -> bool {
        known_bits(self.bits, HEURISTIC_MASK)
    }

    /// The set without any flag.
    pub fn empty() -> (flags: Self)
        ensures
            flags@ == 0,
    {
        proof {
            lemma_heuristic_bits();
        }
        HeuristicFlags { bits: 0 }
    }

    /// The set of every flag.
    pub fn all() -> (flags: Self)
        ensures
            flags@ == HEURISTIC_MASK,
    {
        proof {
            lemma_heuristic_bits();
        }
        HeuristicFlags { bits: HEURISTIC_MASK }
    }

    /// The bits of the set, which are named bits only.
    pub fn bits(&self) -> (bits: u32)
        ensures
            bits == self@,
            known_bits(bits, HEURISTIC_MASK),
    {
        proof {
            use_type_invariant(self);
        }
        self.bits
    }

    /// Reads a word as a set. A word with a bit that has no name is no set.
    pub fn from_bits(bits: u32) -> (flags: Option<Self>)
        ensures
            flags is Some <==> known_bits(bits, HEURISTIC_MASK),
            flags matches Some(f) ==> f@ == bits,
    {
        if bits & !HEURISTIC_MASK == 0 {
            Some(HeuristicFlags { bits })
        } else {
            None
        }
    }

    /// True when every flag of `other` is in this set.
    pub fn contains(&self, other: Self) -> (held: bool)
        ensures
            held == (self@ & other@ == other@),
    {
        self.bits & other.bits == other.bits
    }

    /// The flags that are in either set.
    pub fn union(self, other: Self) -> (flags: Self)
        ensures
            flags@ == self@ | other@,
    {
        proof {
            use_type_invariant(self);
            use_type_invariant(other);
            lemma_union_known(self.bits, other.bits, HEURISTIC_MASK);
        }
        HeuristicFlags { bits: self.bits | other.bits }
    }

    /// Alert on broken PE and broken ELF files.
    #[allow(non_snake_case)]
    pub fn CL_SCAN_HEURISTIC_BROKEN() -> (flags: Self)
        ensures
            flags@ == CL_SCAN_HEURISTIC_BROKEN,
    {
        proof {
            lemma_heuristic_bits();
        }
        HeuristicFlags { bits: CL_SCAN_HEURISTIC_BROKEN }
    }

    /// Alert when a file exceeds the scan limits.
    #[allow(non_snake_case)]
    pub fn CL_SCAN_HEURISTIC_EXCEEDS_MAX() -> (flags: Self)
        ensures
            flags@ == CL_SCAN_HEURISTIC_EXCEEDS_MAX,
    {
        proof {
            lemma_heuristic_bits();
        }
        HeuristicFlags { bits: CL_SCAN_HEURISTIC_EXCEEDS_MAX }
    }

    /// Alert on SSL mismatches.
    #[allow(non_snake_case)]
    pub fn CL_SCAN_HEURISTIC_PHISHING_SSL_MISMATCH() -> (flags: Self)
        ensures
            flags@ == CL_SCAN_HEURISTIC_PHISHING_SSL_MISMATCH,
    {
        proof {
            lemma_heuristic_bits();
        }
        HeuristicFlags { bits: CL_SCAN_HEURISTIC_PHISHING_SSL_MISMATCH }
    }

    /// Alert on cloaked URLs in mail.
    #[allow(non_snake_case)]
    pub fn CL_SCAN_HEURISTIC_PHISHING_CLOAK() -> (flags: Self)
        ensures
            flags@ == CL_SCAN_HEURISTIC_PHISHING_CLOAK,
    {
        proof {
            lemma_heuristic_bits();
        }
        HeuristicFlags { bits: CL_SCAN_HEURISTIC_PHISHING_CLOAK }
    }

    /// Alert on OLE2 files that contain macros.
    #[allow(non_snake_case)]
    pub fn CL_SCAN_HEURISTIC_MACROS() -> (flags: Self)
        ensures
            flags@ == CL_SCAN_HEURISTIC_MACROS,
    {
        proof {
            lemma_heuristic_bits();
        }
        HeuristicFlags { bits: CL_SCAN_HEURISTIC_MACROS }
    }

    /// Alert on encrypted archives.
    #[allow(non_snake_case)]
    pub fn CL_SCAN_HEURISTIC_ENCRYPTED_ARCHIVE() -> (flags: Self)
        ensures
            flags@ == CL_SCAN_HEURISTIC_ENCRYPTED_ARCHIVE,
    {
        proof {
            lemma_heuristic_bits();
        }
        HeuristicFlags { bits: CL_SCAN_HEURISTIC_ENCRYPTED_ARCHIVE }
    }

    /// Alert on encrypted documents.
    #[allow(non_snake_case)]
    pub fn CL_SCAN_HEURISTIC_ENCRYPTED_DOC() -> (flags: Self)
        ensures
            flags@ == CL_SCAN_HEURISTIC_ENCRYPTED_DOC,
    {
        proof {
            lemma_heuristic_bits();
        }
        HeuristicFlags { bits: CL_SCAN_HEURISTIC_ENCRYPTED_DOC }
    }

    /// Alert on partition tables whose sizes make no sense.
    #[allow(non_snake_case)]
    pub fn CL_SCAN_HEURISTIC_PARTITION_INTXN() -> (flags: Self)
        ensures
            flags@ == CL_SCAN_HEURISTIC_PARTITION_INTXN,
    {
        proof {
            lemma_heuristic_bits();
        }
        HeuristicFlags { bits: CL_SCAN_HEURISTIC_PARTITION_INTXN }
    }

    /// Alert on personal information.
    #[allow(non_snake_case)]
    pub fn CL_SCAN_HEURISTIC_STRUCTURED() -> (flags: Self)
        ensures
            flags@ == CL_SCAN_HEURISTIC_STRUCTURED,
    {
        proof {
            lemma_heuristic_bits();
        }
        HeuristicFlags { bits: CL_SCAN_HEURISTIC_STRUCTURED }
    }

    /// Alert on social security numbers.
    #[allow(non_snake_case)]
    pub fn CL_SCAN_HEURISTIC_STRUCTURED_SSN_NORMAL() -> (flags: Self)
        ensures
            flags@ == CL_SCAN_HEURISTIC_STRUCTURED_SSN_NORMAL,
    {
        proof {
            lemma_heuristic_bits();
        }
        HeuristicFlags { bits: CL_SCAN_HEURISTIC_STRUCTURED_SSN_NORMAL }
    }

    /// Alert on stripped social security numbers.
    #[allow(non_snake_case)]
    pub fn CL_SCAN_HEURISTIC_STRUCTURED_SSN_STRIPPED() -> (flags: Self)
        ensures
            flags@ == CL_SCAN_HEURISTIC_STRUCTURED_SSN_STRIPPED,
    {
        proof {
            lemma_heuristic_bits();
        }
        HeuristicFlags { bits: CL_SCAN_HEURISTIC_STRUCTURED_SSN_STRIPPED }
    }

    /// Alert on credit card numbers.
    #[allow(non_snake_case)]
    pub fn CL_SCAN_HEURISTIC_STRUCTURED_CC() -> (flags: Self)
        ensures
            flags@ == CL_SCAN_HEURISTIC_STRUCTURED_CC,
    {
        proof {
            lemma_heuristic_bits();
        }
        HeuristicFlags { bits: CL_SCAN_HEURISTIC_STRUCTURED_CC }
    }
}

/// A set of mail scanning options.
#[derive(Clone, Copy, Debug, PartialEq, Eq, Hash, Structural)]
pub struct MailFlags {
    bits: u32,
}

impl View for MailFlags {
    type V = u32;

    /// The bits of the set.
    closed spec fn view(&self) -> u32 {
        self.bits
    }
}

impl MailFlags {
    #[verifier::type_invariant]
    spec fn named_bits_only(self) -> bool {
        known_bits(self.bits, MAIL_MASK)
    }

    /// The set without any flag.
    pub fn empty() -> (flags: Self)
        ensures
            flags@ == 0,
    {
        proof {
            lemma_mail_bits();
        }
        MailFlags { bits: 0 }
    }

    /// The set of every flag.
    pub fn all() -> (flags: Self)
        ensures
            flags@ == MAIL_MASK,
    {
        proof {
            lemma_mail_bits();
        }
        MailFlags { bits: MAIL_MASK }
    }

    /// The bits of the set, which are named bits only.
    pub fn bits(&self) -> (bits: u32)
        ensures
            bits == self@,
            known_bits(bits, MAIL_MASK),
    {
        proof {
            use_type_invariant(self);
        }
        self.bits
    }

    /// Reads a word as a set. A word with a bit that has no name is no set.
    pub fn from_bits(bits: u32) -> (flags: Option<Self>)
        ensures
            flags is Some <==> known_bits(bits, MAIL_MASK),
            flags matches Some(f) ==> f@ == bits,
    {
        if bits & !MAIL_MASK == 0 {
            Some(MailFlags { bits })
        } else {
            None
        }
    }

    /// True when every flag of `other` is in this set.
    pub fn contains(&self, other: Self) -> (held: bool)
        ensures
            held == (self@ & other@ == other@),
    {
        self.bits & other.bits == other.bits
    }

    /// The flags that are in either set.
    pub fn union(self, other: Self) -> (flags: Self)
        ensures
            flags@ == self@ | other@,
    {
        proof {
            use_type_invariant(self);
            use_type_invariant(other);
            lemma_union_known(self.bits, other.bits, MAIL_MASK);
        }
        MailFlags { bits: self.bits | other.bits }
    }

    /// Scan messages that are split over many mails.
    #[allow(non_snake_case)]
    pub fn CL_SCAN_MAIL_PARTIAL_MESSAGE() -> (flags: Self)
        ensures
            flags@ == CL_SCAN_MAIL_PARTIAL_MESSAGE,
    {
        proof {
            lemma_mail_bits();
        }
        MailFlags { bits: CL_SCAN_MAIL_PARTIAL_MESSAGE }
    }
}

/// A set of developer options.
#[derive(Clone, Copy, Debug, PartialEq, Eq, Hash, Structural)]
pub struct DevFlags {
    bits: u32,
}

impl View for DevFlags {
    type V = u32;

    /// The bits of the set.
    closed spec fn view(&self) -> u32 {
        self.bits
    }
}

impl DevFlags {
    #[verifier::type_invariant]
    spec fn named_bits_only(self) -> bool {
        known_bits(self.bits, DEV_MASK)
    }

    /// The set without any flag.
    pub fn empty() -> (flags: Self)
        ensures
            flags@ == 0,
    {
        proof {
            lemma_dev_bits();
        }
        DevFlags { bits: 0 }
    }

    /// The set of every flag.
    pub fn all() -> (flags: Self)
        ensures
            flags@ == DEV_MASK,
    {
        proof {
            lemma_dev_bits();
        }
        DevFlags { bits: DEV_MASK }
    }

    /// The bits of the set, which are named bits only.
    pub fn bits(&self) -> (bits: u32)
        ensures
            bits == self@,
            known_bits(bits, DEV_MASK),
    {
        proof {
            use_type_invariant(self);
        }
        self.bits
    }

    /// Reads a word as a set. A word with a bit that has no name is no set.
    pub fn from_bits(bits: u32) -> (flags: Option<Self>)
        ensures
            flags is Some <==> known_bits(bits, DEV_MASK),
            flags matches Some(f) ==> f@ == bits,
    {
        if bits & !DEV_MASK == 0 {
            Some(DevFlags { bits })
        } else {
            None
        }
    }

    /// True when every flag of `other` is in this set.
    pub fn contains(&self, other: Self) -> (held: bool)
        ensures
            held == (self@ & other@ == other@),
    {
        self.bits & other.bits == other.bits
    }

    /// The flags that are in either set.
    pub fn union(self, other: Self) -> (flags: Self)
        ensures
            flags@ == self@ | other@,
    {
        proof {
            use_type_invariant(self);
            use_type_invariant(other);
            lemma_union_known(self.bits, other.bits, DEV_MASK);
        }
        DevFlags { bits: self.bits | other.bits }
    }

    /// Collect hashes; for internal use.
    #[allow(non_snake_case)]
    pub fn CL_SCAN_DEV_COLLECT_SHA() -> (flags: Self)
        ensures
            flags@ == CL_SCAN_DEV_COLLECT_SHA,
    {
        proof {
            lemma_dev_bits();
        }
        DevFlags { bits: CL_SCAN_DEV_COLLECT_SHA }
    }

    /// Collect performance timings.
    #[allow(non_snake_case)]
    pub fn CL_SCAN_DEV_COLLECT_PERFORMANCE_INFO() -> (flags: Self)
        ensures
            flags@ == CL_SCAN_DEV_COLLECT_PERFORMANCE_INFO,
    {
        proof {
            lemma_dev_bits();
        }
        DevFlags { bits: CL_SCAN_DEV_COLLECT_PERFORMANCE_INFO }
    }
}

/// The standard options hold named bits only.
pub proof fn lemma_standard_known()
    ensures
        known_options(cl_scan_options::standard()),
{
    lemma_general_bits();
    lemma_parse_bits();
    lemma_heuristic_bits();
    lemma_mail_bits();
    lemma_dev_bits();
}

/// Every flag with its word, its bit and its name, in the order in which a
/// settings value is rendered: general, parse, heuristic, mail, developer.
pub open spec fn flag_table() -> Seq<(ScanGroup, u32, &'static str)> {
    seq![
        (ScanGroup::General, CL_SCAN_GENERAL_ALLMATCHES, "CL_SCAN_GENERAL_ALLMATCHES"),
        (ScanGroup::General, CL_SCAN_GENERAL_COLLECT_METADATA, "CL_SCAN_GENERAL_COLLECT_METADATA"),
        (ScanGroup::General, CL_SCAN_GENERAL_HEURISTICS, "CL_SCAN_GENERAL_HEURISTICS"),
        (
            ScanGroup::General,
            CL_SCAN_GENERAL_HEURISTIC_PRECEDENCE,
            "CL_SCAN_GENERAL_HEURISTIC_PRECEDENCE",
        ),
        (ScanGroup::General, CL_SCAN_GENERAL_UNPRIVILEGED, "CL_SCAN_GENERAL_UNPRIVILEGED"),
        (ScanGroup::Parse, CL_SCAN_PARSE_ARCHIVE, "CL_SCAN_PARSE_ARCHIVE"),
        (ScanGroup::Parse, CL_SCAN_PARSE_ELF, "CL_SCAN_PARSE_ELF"),
        (ScanGroup::Parse, CL_SCAN_PARSE_PDF, "CL_SCAN_PARSE_PDF"),
        (ScanGroup::Parse, CL_SCAN_PARSE_SWF, "CL_SCAN_PARSE_SWF"),
        (ScanGroup::Parse, CL_SCAN_PARSE_HWP3, "CL_SCAN_PARSE_HWP3"),
        (ScanGroup::Parse, CL_SCAN_PARSE_XMLDOCS, "CL_SCAN_PARSE_XMLDOCS"),
        (ScanGroup::Parse, CL_SCAN_PARSE_MAIL, "CL_SCAN_PARSE_MAIL"),
        (ScanGroup::Parse, CL_SCAN_PARSE_OLE2, "CL_SCAN_PARSE_OLE2"),
        (ScanGroup::Parse, CL_SCAN_PARSE_HTML, "CL_SCAN_PARSE_HTML"),
        (ScanGroup::Parse, CL_SCAN_PARSE_PE, "CL_SCAN_PARSE_PE"),
        (ScanGroup::Heuristic, CL_SCAN_HEURISTIC_BROKEN, "CL_SCAN_HEURISTIC_BROKEN"),
        (ScanGroup::Heuristic, CL_SCAN_HEURISTIC_EXCEEDS_MAX, "CL_SCAN_HEURISTIC_EXCEEDS_MAX"),
        (
            ScanGroup::Heuristic,
            CL_SCAN_HEURISTIC_PHISHING_SSL_MISMATCH,
            "CL_SCAN_HEURISTIC_PHISHING_SSL_MISMATCH",
        ),
        (
            ScanGroup::Heuristic,
            CL_SCAN_HEURISTIC_PHISHING_CLOAK,
            "CL_SCAN_HEURISTIC_PHISHING_CLOAK",
        ),
        (ScanGroup::Heuristic, CL_SCAN_HEURISTIC_MACROS, "CL_SCAN_HEURISTIC_MACROS"),
        (
            ScanGroup::Heuristic,
            CL_SCAN_HEURISTIC_ENCRYPTED_ARCHIVE,
            "CL_SCAN_HEURISTIC_ENCRYPTED_ARCHIVE",
        ),
        (ScanGroup::Heuristic, CL_SCAN_HEURISTIC_ENCRYPTED_DOC, "CL_SCAN_HEURISTIC_ENCRYPTED_DOC"),
        (
            ScanGroup::Heuristic,
            CL_SCAN_HEURISTIC_PARTITION_INTXN,
            "CL_SCAN_HEURISTIC_PARTITION_INTXN",
        ),
        (ScanGroup::Heuristic, CL_SCAN_HEURISTIC_STRUCTURED, "CL_SCAN_HEURISTIC_STRUCTURED"),
        (
            ScanGroup::Heuristic,
            CL_SCAN_HEURISTIC_STRUCTURED_SSN_NORMAL,
            "CL_SCAN_HEURISTIC_STRUCTURED_SSN_NORMAL",
        ),
        (
            ScanGroup::Heuristic,
            CL_SCAN_HEURISTIC_STRUCTURED_SSN_STRIPPED,
            "CL_SCAN_HEURISTIC_STRUCTURED_SSN_STRIPPED",
        ),
        (ScanGroup::Heuristic, CL_SCAN_HEURISTIC_STRUCTURED_CC, "CL_SCAN_HEURISTIC_STRUCTURED_CC"),
        (ScanGroup::Mail, CL_SCAN_MAIL_PARTIAL_MESSAGE, "CL_SCAN_MAIL_PARTIAL_MESSAGE"),
        (ScanGroup::Dev, CL_SCAN_DEV_COLLECT_SHA, "CL_SCAN_DEV_COLLECT_SHA"),
        (
            ScanGroup::Dev,
            CL_SCAN_DEV_COLLECT_PERFORMANCE_INFO,
            "CL_SCAN_DEV_COLLECT_PERFORMANCE_INFO",
        ),
    ]
}

/// True when the flag of a table entry is set in the record.
pub open spec fn is_set(options: cl_scan_options, entry: (ScanGroup, u32, &'static str)) -> bool {
    group_word(options, entry.0) & entry.1 == entry.1
}

/// The names of the entries of `table` whose flag is set, in table order.
pub open spec fn set_flag_names(
    options: cl_scan_options,
    table: Seq<(ScanGroup, u32, &'static str)>,
) -> Seq<Seq<char>>
    decreases table.len(),
{
    if table.len() == 0 {
        Seq::empty()
    } else {
        let before = set_flag_names(options, table.drop_last());
        if is_set(options, table.last()) {
            before.push(table.last().2@)
        } else {
            before
        }
    }
}

/// The names joined by single spaces.
pub open spec fn joined(names: Seq<Seq<char>>) -> Seq<char>
    decreases names.len(),
{
    if names.len() == 0 {
        Seq::empty()
    } else if names.len() == 1 {
        names[0]
    } else {
        joined(names.drop_last()) + " "@ + names.last()
    }
}

/// The text of an option record: the name of every flag that is set.
pub open spec fn rendered(options: cl_scan_options) -> Seq<char> {
    joined(set_flag_names(options, flag_table()))
}

fn flag_entries() -> (table: [(ScanGroup, u32, &'static str); 30])
    ensures
        table@ == flag_table(),
{
    let table = [
        (ScanGroup::General, CL_SCAN_GENERAL_ALLMATCHES, "CL_SCAN_GENERAL_ALLMATCHES"),
        (ScanGroup::General, CL_SCAN_GENERAL_COLLECT_METADATA, "CL_SCAN_GENERAL_COLLECT_METADATA"),
        (ScanGroup::General, CL_SCAN_GENERAL_HEURISTICS, "CL_SCAN_GENERAL_HEURISTICS"),
        (
            ScanGroup::General,
            CL_SCAN_GENERAL_HEURISTIC_PRECEDENCE,
            "CL_SCAN_GENERAL_HEURISTIC_PRECEDENCE",
        ),
        (ScanGroup::General, CL_SCAN_GENERAL_UNPRIVILEGED, "CL_SCAN_GENERAL_UNPRIVILEGED"),
        (ScanGroup::Parse, CL_SCAN_PARSE_ARCHIVE, "CL_SCAN_PARSE_ARCHIVE"),
        (ScanGroup::Parse, CL_SCAN_PARSE_ELF, "CL_SCAN_PARSE_ELF"),
        (ScanGroup::Parse, CL_SCAN_PARSE_PDF, "CL_SCAN_PARSE_PDF"),
        (ScanGroup::Parse, CL_SCAN_PARSE_SWF, "CL_SCAN_PARSE_SWF"),
        (ScanGroup::Parse, CL_SCAN_PARSE_HWP3, "CL_SCAN_PARSE_HWP3"),
        (ScanGroup::Parse, CL_SCAN_PARSE_XMLDOCS, "CL_SCAN_PARSE_XMLDOCS"),
        (ScanGroup::Parse, CL_SCAN_PARSE_MAIL, "CL_SCAN_PARSE_MAIL"),
        (ScanGroup::Parse, CL_SCAN_PARSE_OLE2, "CL_SCAN_PARSE_OLE2"),
        (ScanGroup::Parse, CL_SCAN_PARSE_HTML, "CL_SCAN_PARSE_HTML"),
        (ScanGroup::Parse, CL_SCAN_PARSE_PE, "CL_SCAN_PARSE_PE"),
        (ScanGroup::Heuristic, CL_SCAN_HEURISTIC_BROKEN, "CL_SCAN_HEURISTIC_BROKEN"),
        (ScanGroup::Heuristic, CL_SCAN_HEURISTIC_EXCEEDS_MAX, "CL_SCAN_HEURISTIC_EXCEEDS_MAX"),
        (
            ScanGroup::Heuristic,
            CL_SCAN_HEURISTIC_PHISHING_SSL_MISMATCH,
            "CL_SCAN_HEURISTIC_PHISHING_SSL_MISMATCH",
        ),
        (
            ScanGroup::Heuristic,
            CL_SCAN_HEURISTIC_PHISHING_CLOAK,
            "CL_SCAN_HEURISTIC_PHISHING_CLOAK",
        ),
        (ScanGroup::Heuristic, CL_SCAN_HEURISTIC_MACROS, "CL_SCAN_HEURISTIC_MACROS"),
        (
            ScanGroup::Heuristic,
            CL_SCAN_HEURISTIC_ENCRYPTED_ARCHIVE,
            "CL_SCAN_HEURISTIC_ENCRYPTED_ARCHIVE",
        ),
        (ScanGroup::Heuristic, CL_SCAN_HEURISTIC_ENCRYPTED_DOC, "CL_SCAN_HEURISTIC_ENCRYPTED_DOC"),
        (
            ScanGroup::Heuristic,
            CL_SCAN_HEURISTIC_PARTITION_INTXN,
            "CL_SCAN_HEURISTIC_PARTITION_INTXN",
        ),
        (ScanGroup::Heuristic, CL_SCAN_HEURISTIC_STRUCTURED, "CL_SCAN_HEURISTIC_STRUCTURED"),
        (
            ScanGroup::Heuristic,
            CL_SCAN_HEURISTIC_STRUCTURED_SSN_NORMAL,
            "CL_SCAN_HEURISTIC_STRUCTURED_SSN_NORMAL",
        ),
        (
            ScanGroup::Heuristic,
            CL_SCAN_HEURISTIC_STRUCTURED_SSN_STRIPPED,
            "CL_SCAN_HEURISTIC_STRUCTURED_SSN_STRIPPED",
        ),
        (ScanGroup::Heuristic, CL_SCAN_HEURISTIC_STRUCTURED_CC, "CL_SCAN_HEURISTIC_STRUCTURED_CC"),
        (ScanGroup::Mail, CL_SCAN_MAIL_PARTIAL_MESSAGE, "CL_SCAN_MAIL_PARTIAL_MESSAGE"),
        (ScanGroup::Dev, CL_SCAN_DEV_COLLECT_SHA, "CL_SCAN_DEV_COLLECT_SHA"),
        (
            ScanGroup::Dev,
            CL_SCAN_DEV_COLLECT_PERFORMANCE_INFO,
            "CL_SCAN_DEV_COLLECT_PERFORMANCE_INFO",
        ),
    ];
    assert(table@ =~= flag_table());
    table
}

fn word_of(options: &cl_scan_options, group: ScanGroup) -> (word: u32)
    ensures
        word == group_word(*options, group),
{
    match group {
        ScanGroup::General => options.general,
        ScanGroup::Parse => options.parse,
        ScanGroup::Heuristic => options.heuristic,
        ScanGroup::Mail => options.mail,
        ScanGroup::Dev => options.dev,
    }
}

/// The settings of a scan.
#[derive(Clone, Copy, Debug, PartialEq, Eq, Structural)]
pub struct ScanSettings {
    /// The option record that is handed to the native scan call.
    pub settings: cl_scan_options,
}

impl Default for ScanSettings {
    /// The standard options.
    fn default() -> (settings: Self)
        ensures
            settings.settings == cl_scan_options::standard(),
            settings.well_formed(),
    {
        proof {
            lemma_standard_known();
        }
        ScanSettings { settings: cl_scan_options::default() }
    }
}

impl ScanSettings {
    /// True when every word of the record holds named bits only.
    pub open spec fn well_formed(&self) -> bool {
        known_options(self.settings)
    }

    /// Tests whether every word of the record holds named bits only.
    pub fn is_well_formed(&self) -> (ok: bool)
        ensures
            ok == self.well_formed(),
    {
        self.settings.general & !GENERAL_MASK == 0
            && self.settings.parse & !PARSE_MASK == 0
            && self.settings.heuristic & !HEURISTIC_MASK == 0
            && self.settings.mail & !MAIL_MASK == 0
            && self.settings.dev & !DEV_MASK == 0
    }

    /// The general word as a typed set. The word must hold named bits only.
    pub fn general(&self) -> (flags: GeneralFlags)
        requires
            known_bits(self.settings.general, GENERAL_MASK),
        ensures
            flags@ == self.settings.general,
    {
        GeneralFlags { bits: self.settings.general }
    }

    /// Replaces the general word and leaves the other four as they are.
    pub fn set_general(&mut self, flags: GeneralFlags)
        ensures
            final(self).settings == with_word(old(self).settings, ScanGroup::General, flags@),
            known_bits(final(self).settings.general, GENERAL_MASK),
    {
        self.settings.general = flags.bits();
    }

    /// The parse word as a typed set. The word must hold named bits only.
    pub fn parse(&self) -> (flags: ParseFlags)
        requires
            known_bits(self.settings.parse, PARSE_MASK),
        ensures
            flags@ == self.settings.parse,
    {
        ParseFlags { bits: self.settings.parse }
    }

    /// Replaces the parse word and leaves the other four as they are.
    pub fn set_parse(&mut self, flags: ParseFlags)
        ensures
            final(self).settings == with_word(old(self).settings, ScanGroup::Parse, flags@),
            known_bits(final(self).settings.parse, PARSE_MASK),
    {
        self.settings.parse = flags.bits();
    }

    /// The heuristic word as a typed set. The word must hold named bits only.
    pub fn heuristic(&self) -> (flags: HeuristicFlags)
        requires
            known_bits(self.settings.heuristic, HEURISTIC_MASK),
        ensures
            flags@ == self.settings.heuristic,
    {
        HeuristicFlags { bits: self.settings.heuristic }
    }

    /// Replaces the heuristic word and leaves the other four as they are.
    pub fn set_heuristic(&mut self, flags: HeuristicFlags)
        ensures
            final(self).settings == with_word(old(self).settings, ScanGroup::Heuristic, flags@),
            known_bits(final(self).settings.heuristic, HEURISTIC_MASK),
    {
        self.settings.heuristic = flags.bits();
    }

    /// The mail word as a typed set. The word must hold named bits only.
    pub fn mail(&self) -> (flags: MailFlags)
        requires
            known_bits(self.settings.mail, MAIL_MASK),
        ensures
            flags@ == self.settings.mail,
    {
        MailFlags { bits: self.settings.mail }
    }

    /// Replaces the mail word and leaves the other four as they are.
    pub fn set_mail(&mut self, flags: MailFlags)
        ensures
            final(self).settings == with_word(old(self).settings, ScanGroup::Mail, flags@),
            known_bits(final(self).settings.mail, MAIL_MASK),
    {
        self.settings.mail = flags.bits();
    }

    /// The dev word as a typed set. The word must hold named bits only.
    pub fn dev(&self) -> (flags: DevFlags)
        requires
            known_bits(self.settings.dev, DEV_MASK),
        ensures
            flags@ == self.settings.dev,
    {
        DevFlags { bits: self.settings.dev }
    }

    /// Replaces the dev word and leaves the other four as they are.
    pub fn set_dev(&mut self, flags: DevFlags)
        ensures
            final(self).settings == with_word(old(self).settings, ScanGroup::Dev, flags@),
            known_bits(final(self).settings.dev, DEV_MASK),
    {
        self.settings.dev = flags.bits();
    }

    /// Lists the name of every flag that is set, joined by spaces, in the
    /// order general, parse, heuristic, mail, developer. Every word must
    /// hold named bits only.
    pub fn to_string(&self) -> (text: String)
        requires
            self.well_formed(),
        ensures
            text@ == rendered(self.settings),
    {
        let table = flag_entries();
        let mut text = String::new();
        let mut count: usize = 0;
        let mut i: usize = 0;
        while i < 30
            invariant
                i <= 30,
                table@ == flag_table(),
                count <= i,
                count == set_flag_names(self.settings, table@.take(i as int)).len(),
                text@ == joined(set_flag_names(self.settings, table@.take(i as int))),
            decreases 30 - i,
        {
            let (group, bit, name) = table[i];
            proof {
                let next = table@.take(i as int + 1);
                assert(next.drop_last() =~= table@.take(i as int));
                assert(next.last() == table@[i as int]);
            }
            if word_of(&self.settings, group) & bit == bit {
                if count > 0 {
                    text.append(" ");
                }
                text.append(name);
                count += 1;
                proof {
                    let names = set_flag_names(self.settings, table@.take(i as int + 1));
                    assert(names.drop_last() =~= set_flag_names(
                        self.settings,
                        table@.take(i as int),
                    ));
                }
            }
            i += 1;
        }
        assert(table@.take(30) =~= table@);
        text
    }
}

/// Accumulates scan settings, starting from the standard options.
pub struct ScanSettingsBuilder {
    current: cl_scan_options,
}

impl View for ScanSettingsBuilder {
    type V = cl_scan_options;

    /// The options accumulated so far.
    closed spec fn view(&self) -> cl_scan_options {
        self.current
    }
}

impl ScanSettingsBuilder {
    #[verifier::type_invariant]
    spec fn named_bits_only(self) -> bool {
        known_options(self.current)
    }

    /// A builder that holds the standard options.
    pub fn new() -> (builder: Self)
        ensures
            builder@ == cl_scan_options::standard(),
    {
        proof {
            lemma_standard_known();
        }
        ScanSettingsBuilder { current: cl_scan_options::default() }
    }

    /// A snapshot of the options accumulated so far.
    pub fn build(&self) -> (settings: ScanSettings)
        ensures
            settings.settings == self@,
            settings.well_formed(),
    {
        proof {
            use_type_invariant(self);
        }
        ScanSettings { settings: self.current }
    }

    /// Disables every parser. Only the parse word is reset: the other four
    /// words keep what they hold.
    pub fn clear(&mut self) -> (ret: &mut Self)
        ensures
            ret@ == with_word(old(self)@, ScanGroup::Parse, 0),
            *final(self) == *final(ret),
    {
        proof {
            use_type_invariant(&*self);
            lemma_parse_bits();
        }
        self.current.parse = 0;
        self
    }

    /// Enables transparent scanning of archives.
    pub fn enable_archive(&mut self) -> (ret: &mut Self)
        ensures
            ret@ == with_bits(old(self)@, ScanGroup::Parse, CL_SCAN_PARSE_ARCHIVE),
            *final(self) == *final(ret),
    {
        proof {
            use_type_invariant(&*self);
            lemma_parse_bits();
            lemma_union_known(
                self.current.parse,
                CL_SCAN_PARSE_ARCHIVE,
                PARSE_MASK,
            );
        }
        self.current.parse |= CL_SCAN_PARSE_ARCHIVE;
        self
    }

    /// Enables support for mail files.
    pub fn enable_mail(&mut self) -> (ret: &mut Self)
        ensures
            ret@ == with_bits(old(self)@, ScanGroup::Parse, CL_SCAN_PARSE_MAIL),
            *final(self) == *final(ret),
    {
        proof {
            use_type_invariant(&*self);
            lemma_parse_bits();
            lemma_union_known(
                self.current.parse,
                CL_SCAN_PARSE_MAIL,
                PARSE_MASK,
            );
        }
        self.current.parse |= CL_SCAN_PARSE_MAIL;
        self
    }

    /// Enables support for OLE2 containers.
    pub fn enable_ole2(&mut self) -> (ret: &mut Self)
        ensures
            ret@ == with_bits(old(self)@, ScanGroup::Parse, CL_SCAN_PARSE_OLE2),
            *final(self) == *final(ret),
    {
        proof {
            use_type_invariant(&*self);
            lemma_parse_bits();
            lemma_union_known(
                self.current.parse,
                CL_SCAN_PARSE_OLE2,
                PARSE_MASK,
            );
        }
        self.current.parse |= CL_SCAN_PARSE_OLE2;
        self
    }

    /// Marks encrypted archives as detections.
    pub fn block_encrypted(&mut self) -> (ret: &mut Self)
        ensures
            ret@ == with_bits(
                old(self)@,
                ScanGroup::Heuristic,
                CL_SCAN_HEURISTIC_ENCRYPTED_ARCHIVE,
            ),
            *final(self) == *final(ret),
    {
        proof {
            use_type_invariant(&*self);
            lemma_heuristic_bits();
            lemma_union_known(
                self.current.heuristic,
                CL_SCAN_HEURISTIC_ENCRYPTED_ARCHIVE,
                HEURISTIC_MASK,
            );
        }
        self.current.heuristic |= CL_SCAN_HEURISTIC_ENCRYPTED_ARCHIVE;
        self
    }

    /// Enables HTML normalisation.
    pub fn enable_html(&mut self) -> (ret: &mut Self)
        ensures
            ret@ == with_bits(old(self)@, ScanGroup::Parse, CL_SCAN_PARSE_HTML),
            *final(self) == *final(ret),
    {
        proof {
            use_type_invariant(&*self);
            lemma_parse_bits();
            lemma_union_known(
                self.current.parse,
                CL_SCAN_PARSE_HTML,
                PARSE_MASK,
            );
        }
        self.current.parse |= CL_SCAN_PARSE_HTML;
        self
    }

    /// Enables deep scanning of portable executables.
    pub fn enable_pe(&mut self) -> (ret: &mut Self)
        ensures
            ret@ == with_bits(old(self)@, ScanGroup::Parse, CL_SCAN_PARSE_PE),
            *final(self) == *final(ret),
    {
        proof {
            use_type_invariant(&*self);
            lemma_parse_bits();
            lemma_union_known(
                self.current.parse,
                CL_SCAN_PARSE_PE,
                PARSE_MASK,
            );
        }
        self.current.parse |= CL_SCAN_PARSE_PE;
        self
    }

    /// Marks broken executables as detections.
    pub fn block_broken_executables(&mut self) -> (ret: &mut Self)
        ensures
            ret@ == with_bits(old(self)@, ScanGroup::Heuristic, CL_SCAN_HEURISTIC_BROKEN),
            *final(self) == *final(ret),
    {
        proof {
            use_type_invariant(&*self);
            lemma_heuristic_bits();
            lemma_union_known(
                self.current.heuristic,
                CL_SCAN_HEURISTIC_BROKEN,
                HEURISTIC_MASK,
            );
        }
        self.current.heuristic |= CL_SCAN_HEURISTIC_BROKEN;
        self
    }

    /// Marks files that exceed a scan limit as detections.
    pub fn block_max_limit(&mut self) -> (ret: &mut Self)
        ensures
            ret@ == with_bits(old(self)@, ScanGroup::Heuristic, CL_SCAN_HEURISTIC_EXCEEDS_MAX),
            *final(self) == *final(ret),
    {
        proof {
            use_type_invariant(&*self);
            lemma_heuristic_bits();
            lemma_union_known(
                self.current.heuristic,
                CL_SCAN_HEURISTIC_EXCEEDS_MAX,
                HEURISTIC_MASK,
            );
        }
        self.current.heuristic |= CL_SCAN_HEURISTIC_EXCEEDS_MAX;
        self
    }

    /// Always blocks SSL mismatches in URLs.
    pub fn enable_phishing_blockssl(&mut self) -> (ret: &mut Self)
        ensures
            ret@ == with_bits(
                old(self)@,
                ScanGroup::Heuristic,
                CL_SCAN_HEURISTIC_PHISHING_SSL_MISMATCH,
            ),
            *final(self) == *final(ret),
    {
        proof {
            use_type_invariant(&*self);
            lemma_heuristic_bits();
            lemma_union_known(
                self.current.heuristic,
                CL_SCAN_HEURISTIC_PHISHING_SSL_MISMATCH,
                HEURISTIC_MASK,
            );
        }
        self.current.heuristic |= CL_SCAN_HEURISTIC_PHISHING_SSL_MISMATCH;
        self
    }

    /// Always blocks cloaked URLs.
    pub fn enable_phishing_blockcloak(&mut self) -> (ret: &mut Self)
        ensures
            ret@ == with_bits(old(self)@, ScanGroup::Heuristic, CL_SCAN_HEURISTIC_PHISHING_CLOAK),
            *final(self) == *final(ret),
    {
        proof {
            use_type_invariant(&*self);
            lemma_heuristic_bits();
            lemma_union_known(
                self.current.heuristic,
                CL_SCAN_HEURISTIC_PHISHING_CLOAK,
                HEURISTIC_MASK,
            );
        }
        self.current.heuristic |= CL_SCAN_HEURISTIC_PHISHING_CLOAK;
        self
    }

    /// Enables support for ELF files.
    pub fn enable_elf(&mut self) -> (ret: &mut Self)
        ensures
            ret@ == with_bits(old(self)@, ScanGroup::Parse, CL_SCAN_PARSE_ELF),
            *final(self) == *final(ret),
    {
        proof {
            use_type_invariant(&*self);
            lemma_parse_bits();
            lemma_union_known(
                self.current.parse,
                CL_SCAN_PARSE_ELF,
                PARSE_MASK,
            );
        }
        self.current.parse |= CL_SCAN_PARSE_ELF;
        self
    }

    /// Enables scanning within PDF files.
    pub fn enable_pdf(&mut self) -> (ret: &mut Self)
        ensures
            ret@ == with_bits(old(self)@, ScanGroup::Parse, CL_SCAN_PARSE_PDF),
            *final(self) == *final(ret),
    {
        proof {
            use_type_invariant(&*self);
            lemma_parse_bits();
            lemma_union_known(
                self.current.parse,
                CL_SCAN_PARSE_PDF,
                PARSE_MASK,
            );
        }
        self.current.parse |= CL_SCAN_PARSE_PDF;
        self
    }

    /// Enables the search for credit card and social security numbers.
    pub fn enable_structured(&mut self) -> (ret: &mut Self)
        ensures
            ret@ == with_bits(old(self)@, ScanGroup::Heuristic, CL_SCAN_HEURISTIC_STRUCTURED),
            *final(self) == *final(ret),
    {
        proof {
            use_type_invariant(&*self);
            lemma_heuristic_bits();
            lemma_union_known(
                self.current.heuristic,
                CL_SCAN_HEURISTIC_STRUCTURED,
                HEURISTIC_MASK,
            );
        }
        self.current.heuristic |= CL_SCAN_HEURISTIC_STRUCTURED;
        self
    }

    /// Enables the search for social security numbers written with dashes.
    pub fn enable_structured_ssn_normal(&mut self) -> (ret: &mut Self)
        ensures
            ret@ == with_bits(
                old(self)@,
                ScanGroup::Heuristic,
                CL_SCAN_HEURISTIC_STRUCTURED_SSN_NORMAL,
            ),
            *final(self) == *final(ret),
    {
        proof {
            use_type_invariant(&*self);
            lemma_heuristic_bits();
            lemma_union_known(
                self.current.heuristic,
                CL_SCAN_HEURISTIC_STRUCTURED_SSN_NORMAL,
                HEURISTIC_MASK,
            );
        }
        self.current.heuristic |= CL_SCAN_HEURISTIC_STRUCTURED_SSN_NORMAL;
        self
    }

    /// Enables the search for social security numbers written without dashes.
    pub fn enable_structured_ssn_stripped(&mut self) -> (ret: &mut Self)
        ensures
            ret@ == with_bits(
                old(self)@,
                ScanGroup::Heuristic,
                CL_SCAN_HEURISTIC_STRUCTURED_SSN_STRIPPED,
            ),
            *final(self) == *final(ret),
    {
        proof {
            use_type_invariant(&*self);
            lemma_heuristic_bits();
            lemma_union_known(
                self.current.heuristic,
                CL_SCAN_HEURISTIC_STRUCTURED_SSN_STRIPPED,
                HEURISTIC_MASK,
            );
        }
        self.current.heuristic |= CL_SCAN_HEURISTIC_STRUCTURED_SSN_STRIPPED;
        self
    }

    /// Enables scanning of messages that are split over many mails.
    pub fn enable_partial_message(&mut self) -> (ret: &mut Self)
        ensures
            ret@ == with_bits(old(self)@, ScanGroup::Mail, CL_SCAN_MAIL_PARTIAL_MESSAGE),
            *final(self) == *final(ret),
    {
        proof {
            use_type_invariant(&*self);
            lemma_mail_bits();
            lemma_union_known(
                self.current.mail,
                CL_SCAN_MAIL_PARTIAL_MESSAGE,
                MAIL_MASK,
            );
        }
        self.current.mail |= CL_SCAN_MAIL_PARTIAL_MESSAGE;
        self
    }

    /// Lets a heuristic match end the scan at once.
    pub fn enable_heuristic_precedence(&mut self) -> (ret: &mut Self)
        ensures
            ret@ == with_bits(old(self)@, ScanGroup::General, CL_SCAN_GENERAL_HEURISTIC_PRECEDENCE),
            *final(self) == *final(ret),
    {
        proof {
            use_type_invariant(&*self);
            lemma_general_bits();
            lemma_union_known(
                self.current.general,
                CL_SCAN_GENERAL_HEURISTIC_PRECEDENCE,
                GENERAL_MASK,
            );
        }
        self.current.general |= CL_SCAN_GENERAL_HEURISTIC_PRECEDENCE;
        self
    }

    /// Marks OLE2 containers that hold macros as detections.
    pub fn block_macros(&mut self) -> (ret: &mut Self)
        ensures
            ret@ == with_bits(old(self)@, ScanGroup::Heuristic, CL_SCAN_HEURISTIC_MACROS),
            *final(self) == *final(ret),
    {
        proof {
            use_type_invariant(&*self);
            lemma_heuristic_bits();
            lemma_union_known(
                self.current.heuristic,
                CL_SCAN_HEURISTIC_MACROS,
                HEURISTIC_MASK,
            );
        }
        self.current.heuristic |= CL_SCAN_HEURISTIC_MACROS;
        self
    }

    /// Enables scanning within SWF files.
    pub fn enable_swf(&mut self) -> (ret: &mut Self)
        ensures
            ret@ == with_bits(old(self)@, ScanGroup::Parse, CL_SCAN_PARSE_SWF),
            *final(self) == *final(ret),
    {
        proof {
            use_type_invariant(&*self);
            lemma_parse_bits();
            lemma_union_known(
                self.current.parse,
                CL_SCAN_PARSE_SWF,
                PARSE_MASK,
            );
        }
        self.current.parse |= CL_SCAN_PARSE_SWF;
        self
    }

    /// Enables scanning of XML documents.
    pub fn enable_xmldocs(&mut self) -> (ret: &mut Self)
        ensures
            ret@ == with_bits(old(self)@, ScanGroup::Parse, CL_SCAN_PARSE_XMLDOCS),
            *final(self) == *final(ret),
    {
        proof {
            use_type_invariant(&*self);
            lemma_parse_bits();
            lemma_union_known(
                self.current.parse,
                CL_SCAN_PARSE_XMLDOCS,
                PARSE_MASK,
            );
        }
        self.current.parse |= CL_SCAN_PARSE_XMLDOCS;
        self
    }

    /// Enables scanning of HWP3 files.
    pub fn enable_hwp3(&mut self) -> (ret: &mut Self)
        ensures
            ret@ == with_bits(old(self)@, ScanGroup::Parse, CL_SCAN_PARSE_HWP3),
            *final(self) == *final(ret),
    {
        proof {
            use_type_invariant(&*self);
            lemma_parse_bits();
            lemma_union_known(
                self.current.parse,
                CL_SCAN_PARSE_HWP3,
                PARSE_MASK,
            );
        }
        self.current.parse |= CL_SCAN_PARSE_HWP3;
        self
    }
}

proof fn lemma_or_commutes(word: u32, a: u32, b: u32)
    by (bit_vector)
    ensures
        (word | a) | b == (word | b) | a,
{
}

/// The order in which two sets of bits are enabled does not matter: enabling
/// `a` in one word and then `b` in a word, the same or another, gives the
/// record that enabling `b` first and then `a` gives.
pub proof fn lemma_enable_commutes(
    options: cl_scan_options,
    first: ScanGroup,
    a: u32,
    second: ScanGroup,
    b: u32,
)
    ensures
        with_bits(with_bits(options, first, a), second, b) == with_bits(
            with_bits(options, second, b),
            first,
            a,
        ),
{
    if first == second {
        lemma_or_commutes(group_word(options, first), a, b);
    }
}

} // verus!
