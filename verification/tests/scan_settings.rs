use clamav_rs::ffi::{
    cl_scan_options, CL_SCAN_GENERAL_ALLMATCHES, CL_SCAN_GENERAL_HEURISTIC_PRECEDENCE,
    CL_SCAN_HEURISTIC_BROKEN, CL_SCAN_HEURISTIC_ENCRYPTED_ARCHIVE, CL_SCAN_HEURISTIC_EXCEEDS_MAX,
    CL_SCAN_HEURISTIC_MACROS, CL_SCAN_HEURISTIC_PHISHING_CLOAK,
    CL_SCAN_HEURISTIC_PHISHING_SSL_MISMATCH, CL_SCAN_HEURISTIC_STRUCTURED,
    CL_SCAN_HEURISTIC_STRUCTURED_SSN_NORMAL, CL_SCAN_HEURISTIC_STRUCTURED_SSN_STRIPPED,
    CL_SCAN_MAIL_PARTIAL_MESSAGE, CL_SCAN_PARSE_ARCHIVE, CL_SCAN_PARSE_ELF, CL_SCAN_PARSE_HTML,
    CL_SCAN_PARSE_HWP3, CL_SCAN_PARSE_MAIL, CL_SCAN_PARSE_OLE2, CL_SCAN_PARSE_PDF,
    CL_SCAN_PARSE_PE, CL_SCAN_PARSE_SWF, CL_SCAN_PARSE_XMLDOCS,
};
use clamav_rs::scan_settings::{
    DevFlags, GeneralFlags, HeuristicFlags, MailFlags, ParseFlags, ScanSettings,
    ScanSettingsBuilder, DEV_MASK, GENERAL_MASK, HEURISTIC_MASK, MAIL_MASK, PARSE_MASK,
};

fn options(general: u32, parse: u32, heuristic: u32, mail: u32, dev: u32) -> cl_scan_options {
    cl_scan_options { general, parse, heuristic, mail, dev }
}

#[test]
fn builder_defaults_to_standard_opts() {
    let settings = ScanSettingsBuilder::new().build();
    assert_eq!(settings.settings, cl_scan_options::default());
}

#[test]
fn builder_clear_success() {
    let settings = ScanSettingsBuilder::new().clear().build();
    assert_eq!(settings.settings.general, 0);
    assert_eq!(settings.settings.parse, 0);
    assert_eq!(settings.settings.heuristic, 0);
    assert_eq!(settings.settings.mail, 0);
    assert_eq!(settings.settings.dev, 0);
}

#[test]
fn builder_just_pdf_success() {
    let settings = ScanSettingsBuilder::new().clear().enable_pdf().build();
    assert_eq!(settings.settings.parse, CL_SCAN_PARSE_PDF);
}

#[test]
fn builder_normal_files_success() {
    let settings = ScanSettingsBuilder::new()
        .clear()
        .enable_pdf()
        .enable_html()
        .enable_pe()
        .build();
    assert_eq!(
        settings.settings.parse,
        CL_SCAN_PARSE_PDF | CL_SCAN_PARSE_HTML | CL_SCAN_PARSE_PE
    );
}

#[test]
fn settings_default_to_standard() {
    let settings: ScanSettings = Default::default();
    assert_eq!(settings.settings, cl_scan_options::default());
}

#[test]
fn standard_options_bit_for_bit() {
    let standard = cl_scan_options::default();
    assert_eq!(standard, options(0, 0x3ff, 0, 0, 0));
    assert_eq!(
        standard.parse,
        CL_SCAN_PARSE_ARCHIVE
            | CL_SCAN_PARSE_MAIL
            | CL_SCAN_PARSE_OLE2
            | CL_SCAN_PARSE_PDF
            | CL_SCAN_PARSE_HTML
            | CL_SCAN_PARSE_PE
            | CL_SCAN_PARSE_ELF
            | CL_SCAN_PARSE_SWF
            | CL_SCAN_PARSE_XMLDOCS
            | CL_SCAN_PARSE_HWP3
    );
    assert_eq!(ScanSettingsBuilder::new().build().settings, options(0, 0x3ff, 0, 0, 0));
    assert_eq!(ScanSettings::default().settings, options(0, 0x3ff, 0, 0, 0));
}

#[test]
fn option_bits_match_the_native_interface() {
    assert_eq!(CL_SCAN_GENERAL_ALLMATCHES, 0x1);
    assert_eq!(CL_SCAN_GENERAL_HEURISTIC_PRECEDENCE, 0x8);
    assert_eq!(CL_SCAN_PARSE_ARCHIVE, 0x1);
    assert_eq!(CL_SCAN_PARSE_ELF, 0x2);
    assert_eq!(CL_SCAN_PARSE_PDF, 0x4);
    assert_eq!(CL_SCAN_PARSE_SWF, 0x8);
    assert_eq!(CL_SCAN_PARSE_HWP3, 0x10);
    assert_eq!(CL_SCAN_PARSE_XMLDOCS, 0x20);
    assert_eq!(CL_SCAN_PARSE_MAIL, 0x40);
    assert_eq!(CL_SCAN_PARSE_OLE2, 0x80);
    assert_eq!(CL_SCAN_PARSE_HTML, 0x100);
    assert_eq!(CL_SCAN_PARSE_PE, 0x200);
    assert_eq!(CL_SCAN_HEURISTIC_BROKEN, 0x2);
    assert_eq!(CL_SCAN_HEURISTIC_ENCRYPTED_ARCHIVE, 0x40);
    assert_eq!(CL_SCAN_MAIL_PARTIAL_MESSAGE, 0x1);
    assert_eq!(GENERAL_MASK, 0x1f);
    assert_eq!(PARSE_MASK, 0x3ff);
    assert_eq!(HEURISTIC_MASK, 0x1ffe);
    assert_eq!(MAIL_MASK, 0x1);
    assert_eq!(DEV_MASK, 0x3);
}

#[test]
fn clear_resets_the_parse_word_only() {
    let settings = ScanSettingsBuilder::new()
        .block_macros()
        .enable_partial_message()
        .enable_heuristic_precedence()
        .clear()
        .build();
    assert_eq!(
        settings.settings,
        options(
            CL_SCAN_GENERAL_HEURISTIC_PRECEDENCE,
            0,
            CL_SCAN_HEURISTIC_MACROS,
            CL_SCAN_MAIL_PARTIAL_MESSAGE,
            0
        )
    );
}

#[test]
fn each_builder_method_sets_its_one_bit() {
    let from_empty = |enable: fn(&mut ScanSettingsBuilder) -> &mut ScanSettingsBuilder| {
        let mut builder = ScanSettingsBuilder::new();
        builder.clear();
        enable(&mut builder);
        builder.build().settings
    };
    assert_eq!(from_empty(ScanSettingsBuilder::enable_archive), options(0, 0x1, 0, 0, 0));
    assert_eq!(from_empty(ScanSettingsBuilder::enable_elf), options(0, 0x2, 0, 0, 0));
    assert_eq!(from_empty(ScanSettingsBuilder::enable_pdf), options(0, 0x4, 0, 0, 0));
    assert_eq!(from_empty(ScanSettingsBuilder::enable_swf), options(0, 0x8, 0, 0, 0));
    assert_eq!(from_empty(ScanSettingsBuilder::enable_hwp3), options(0, 0x10, 0, 0, 0));
    assert_eq!(from_empty(ScanSettingsBuilder::enable_xmldocs), options(0, 0x20, 0, 0, 0));
    assert_eq!(from_empty(ScanSettingsBuilder::enable_mail), options(0, 0x40, 0, 0, 0));
    assert_eq!(from_empty(ScanSettingsBuilder::enable_ole2), options(0, 0x80, 0, 0, 0));
    assert_eq!(from_empty(ScanSettingsBuilder::enable_html), options(0, 0x100, 0, 0, 0));
    assert_eq!(from_empty(ScanSettingsBuilder::enable_pe), options(0, 0x200, 0, 0, 0));
    assert_eq!(
        from_empty(ScanSettingsBuilder::block_broken_executables),
        options(0, 0, CL_SCAN_HEURISTIC_BROKEN, 0, 0)
    );
    assert_eq!(
        from_empty(ScanSettingsBuilder::block_max_limit),
        options(0, 0, CL_SCAN_HEURISTIC_EXCEEDS_MAX, 0, 0)
    );
    assert_eq!(
        from_empty(ScanSettingsBuilder::enable_phishing_blockssl),
        options(0, 0, CL_SCAN_HEURISTIC_PHISHING_SSL_MISMATCH, 0, 0)
    );
    assert_eq!(
        from_empty(ScanSettingsBuilder::enable_phishing_blockcloak),
        options(0, 0, CL_SCAN_HEURISTIC_PHISHING_CLOAK, 0, 0)
    );
    assert_eq!(
        from_empty(ScanSettingsBuilder::block_macros),
        options(0, 0, CL_SCAN_HEURISTIC_MACROS, 0, 0)
    );
    assert_eq!(
        from_empty(ScanSettingsBuilder::block_encrypted),
        options(0, 0, CL_SCAN_HEURISTIC_ENCRYPTED_ARCHIVE, 0, 0)
    );
    assert_eq!(
        from_empty(ScanSettingsBuilder::enable_structured),
        options(0, 0, CL_SCAN_HEURISTIC_STRUCTURED, 0, 0)
    );
    assert_eq!(
        from_empty(ScanSettingsBuilder::enable_structured_ssn_normal),
        options(0, 0, CL_SCAN_HEURISTIC_STRUCTURED_SSN_NORMAL, 0, 0)
    );
    assert_eq!(
        from_empty(ScanSettingsBuilder::enable_structured_ssn_stripped),
        options(0, 0, CL_SCAN_HEURISTIC_STRUCTURED_SSN_STRIPPED, 0, 0)
    );
    assert_eq!(
        from_empty(ScanSettingsBuilder::enable_partial_message),
        options(0, 0, 0, CL_SCAN_MAIL_PARTIAL_MESSAGE, 0)
    );
    assert_eq!(
        from_empty(ScanSettingsBuilder::enable_heuristic_precedence),
        options(CL_SCAN_GENERAL_HEURISTIC_PRECEDENCE, 0, 0, 0, 0)
    );
}

#[test]
fn builder_methods_commute() {
    let one = ScanSettingsBuilder::new().clear().enable_pdf().block_macros().build();
    let other = ScanSettingsBuilder::new().clear().block_macros().enable_pdf().build();
    assert_eq!(one, other);
    assert_eq!(one.settings, options(0, 0x4, 0x20, 0, 0));

    let one = ScanSettingsBuilder::new().clear().enable_elf().enable_pe().build();
    let other = ScanSettingsBuilder::new().clear().enable_pe().enable_elf().build();
    assert_eq!(one, other);
    assert_eq!(one.settings.parse, 0x202);
}

#[test]
fn enabling_twice_is_enabling_once() {
    let once = ScanSettingsBuilder::new().clear().enable_swf().build();
    let twice = ScanSettingsBuilder::new().clear().enable_swf().enable_swf().build();
    assert_eq!(once, twice);
}

#[test]
fn build_leaves_the_builder_usable() {
    let mut builder = ScanSettingsBuilder::new();
    builder.clear().enable_pdf();
    let first = builder.build();
    builder.enable_html();
    let second = builder.build();
    assert_eq!(first.settings.parse, 0x4);
    assert_eq!(second.settings.parse, 0x104);
}

#[test]
fn display_settings_standard_options_success() {
    let string_settings = ScanSettings::default().to_string();
    assert!(string_settings.contains("CL_SCAN_PARSE_ARCHIVE"));
    assert!(string_settings.contains("CL_SCAN_PARSE_MAIL"));
    assert!(string_settings.contains("CL_SCAN_PARSE_OLE2"));
    assert!(string_settings.contains("CL_SCAN_PARSE_PDF"));
    assert!(string_settings.contains("CL_SCAN_PARSE_HTML"));
    assert!(string_settings.contains("CL_SCAN_PARSE_PE"));
    assert!(string_settings.contains("CL_SCAN_PARSE_ELF"));
    assert!(string_settings.contains("CL_SCAN_PARSE_SWF"));
    assert!(string_settings.contains("CL_SCAN_PARSE_XMLDOCS"));
    assert!(string_settings.contains("CL_SCAN_PARSE_HWP3"));
}

#[test]
fn display_settings_lists_every_standard_parser() {
    let string_settings = ScanSettings::default().to_string();
    assert_eq!(
        string_settings,
        "CL_SCAN_PARSE_ARCHIVE CL_SCAN_PARSE_ELF CL_SCAN_PARSE_PDF CL_SCAN_PARSE_SWF \
         CL_SCAN_PARSE_HWP3 CL_SCAN_PARSE_XMLDOCS CL_SCAN_PARSE_MAIL CL_SCAN_PARSE_OLE2 \
         CL_SCAN_PARSE_HTML CL_SCAN_PARSE_PE"
    );
}

#[test]
fn display_of_no_flag_is_empty() {
    let settings = ScanSettings { settings: options(0, 0, 0, 0, 0) };
    assert_eq!(settings.to_string(), "");
}

#[test]
fn display_of_one_flag_has_no_space() {
    let settings = ScanSettingsBuilder::new().clear().enable_pdf().build();
    assert_eq!(settings.to_string(), "CL_SCAN_PARSE_PDF");
}

#[test]
fn display_goes_through_the_groups_in_order() {
    let settings = ScanSettings { settings: options(0x10, 0x200, 0x1002, 0x1, 0x3) };
    assert_eq!(
        settings.to_string(),
        "CL_SCAN_GENERAL_UNPRIVILEGED CL_SCAN_PARSE_PE CL_SCAN_HEURISTIC_BROKEN \
         CL_SCAN_HEURISTIC_STRUCTURED_CC CL_SCAN_MAIL_PARTIAL_MESSAGE CL_SCAN_DEV_COLLECT_SHA \
         CL_SCAN_DEV_COLLECT_PERFORMANCE_INFO"
    );
}

#[test]
fn display_of_every_flag() {
    let settings = ScanSettings {
        settings: options(GENERAL_MASK, PARSE_MASK, HEURISTIC_MASK, MAIL_MASK, DEV_MASK),
    };
    let text = settings.to_string();
    let names: Vec<&str> = text.split(' ').collect();
    assert_eq!(names.len(), 30);
    assert_eq!(names[0], "CL_SCAN_GENERAL_ALLMATCHES");
    assert_eq!(names[4], "CL_SCAN_GENERAL_UNPRIVILEGED");
    assert_eq!(names[5], "CL_SCAN_PARSE_ARCHIVE");
    assert_eq!(names[15], "CL_SCAN_HEURISTIC_BROKEN");
    assert_eq!(names[26], "CL_SCAN_HEURISTIC_STRUCTURED_CC");
    assert_eq!(names[27], "CL_SCAN_MAIL_PARTIAL_MESSAGE");
    assert_eq!(names[29], "CL_SCAN_DEV_COLLECT_PERFORMANCE_INFO");
}

#[test]
fn well_formed_settings_hold_named_bits_only() {
    assert!(ScanSettings::default().is_well_formed());
    assert!(ScanSettings { settings: options(0x1f, 0x3ff, 0x1ffe, 0x1, 0x3) }.is_well_formed());
    assert!(!ScanSettings { settings: options(0x20, 0, 0, 0, 0) }.is_well_formed());
    assert!(!ScanSettings { settings: options(0, 0x400, 0, 0, 0) }.is_well_formed());
    assert!(!ScanSettings { settings: options(0, 0, 0x1, 0, 0) }.is_well_formed());
    assert!(!ScanSettings { settings: options(0, 0, 0, 0x2, 0) }.is_well_formed());
    assert!(!ScanSettings { settings: options(0, 0, 0, 0, 0x4) }.is_well_formed());
}

#[test]
fn group_accessors_read_one_word() {
    let settings = ScanSettings { settings: options(0x3, 0x104, 0x20, 0x1, 0x2) };
    assert_eq!(settings.general().bits(), 0x3);
    assert_eq!(settings.parse().bits(), 0x104);
    assert_eq!(settings.heuristic().bits(), 0x20);
    assert_eq!(settings.mail().bits(), 0x1);
    assert_eq!(settings.dev().bits(), 0x2);
    assert!(settings.parse().contains(ParseFlags::CL_SCAN_PARSE_PDF()));
    assert!(settings.parse().contains(ParseFlags::CL_SCAN_PARSE_HTML()));
    assert!(!settings.parse().contains(ParseFlags::CL_SCAN_PARSE_PE()));
}

#[test]
fn group_mutators_replace_one_word() {
    let mut settings = ScanSettings::default();
    settings.set_general(
        GeneralFlags::CL_SCAN_GENERAL_ALLMATCHES().union(GeneralFlags::CL_SCAN_GENERAL_HEURISTICS()),
    );
    assert_eq!(settings.settings, options(0x5, 0x3ff, 0, 0, 0));
    settings.set_parse(ParseFlags::CL_SCAN_PARSE_ELF());
    assert_eq!(settings.settings, options(0x5, 0x2, 0, 0, 0));
    settings.set_heuristic(HeuristicFlags::all());
    assert_eq!(settings.settings, options(0x5, 0x2, 0x1ffe, 0, 0));
    settings.set_mail(MailFlags::CL_SCAN_MAIL_PARTIAL_MESSAGE());
    assert_eq!(settings.settings, options(0x5, 0x2, 0x1ffe, 0x1, 0));
    settings.set_dev(DevFlags::CL_SCAN_DEV_COLLECT_PERFORMANCE_INFO());
    assert_eq!(settings.settings, options(0x5, 0x2, 0x1ffe, 0x1, 0x2));
    settings.set_heuristic(HeuristicFlags::empty());
    assert_eq!(settings.settings, options(0x5, 0x2, 0, 0x1, 0x2));
}

#[test]
fn flag_sets_refuse_bits_without_a_name() {
    assert_eq!(GeneralFlags::from_bits(0x1f).map(|f| f.bits()), Some(0x1f));
    assert!(GeneralFlags::from_bits(0x20).is_none());
    assert_eq!(ParseFlags::from_bits(0x3ff).map(|f| f.bits()), Some(0x3ff));
    assert!(ParseFlags::from_bits(0x400).is_none());
    assert_eq!(HeuristicFlags::from_bits(0x1ffe).map(|f| f.bits()), Some(0x1ffe));
    assert!(HeuristicFlags::from_bits(0x1).is_none());
    assert!(HeuristicFlags::from_bits(0x2000).is_none());
    assert_eq!(MailFlags::from_bits(0x1).map(|f| f.bits()), Some(0x1));
    assert!(MailFlags::from_bits(0x2).is_none());
    assert_eq!(DevFlags::from_bits(0x3).map(|f| f.bits()), Some(0x3));
    assert!(DevFlags::from_bits(0x4).is_none());
    assert_eq!(GeneralFlags::from_bits(0).map(|f| f.bits()), Some(0));
}

#[test]
fn flag_sets_know_their_members() {
    assert_eq!(GeneralFlags::empty().bits(), 0);
    assert_eq!(GeneralFlags::all().bits(), 0x1f);
    assert_eq!(ParseFlags::all().bits(), 0x3ff);
    assert_eq!(HeuristicFlags::all().bits(), 0x1ffe);
    assert_eq!(MailFlags::all().bits(), 0x1);
    assert_eq!(DevFlags::all().bits(), 0x3);
    assert_eq!(HeuristicFlags::CL_SCAN_HEURISTIC_STRUCTURED_CC().bits(), 0x1000);
    assert_eq!(DevFlags::CL_SCAN_DEV_COLLECT_SHA().bits(), 0x1);
    let both = ParseFlags::CL_SCAN_PARSE_PDF().union(ParseFlags::CL_SCAN_PARSE_PE());
    assert_eq!(both.bits(), 0x204);
    assert!(both.contains(ParseFlags::CL_SCAN_PARSE_PDF()));
    assert!(both.contains(ParseFlags::empty()));
    assert!(!both.contains(ParseFlags::all()));
    assert!(ParseFlags::all().contains(both));
    assert_eq!(both, ParseFlags::from_bits(0x204).unwrap());
}
