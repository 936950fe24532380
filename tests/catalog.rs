use timestamp_formats::{Catalog, RejectReason};

const EXAMPLES: [(&str, &str); 79] = [
    ("ISO_DATE", "2025-05-19"),
    ("ISO_DATETIME", "2025-05-19T14:30:15"),
    ("ISO_DATETIME_UTC", "2025-05-19T14:30:15UTC"),
    ("ISO_DATETIME_TZ", "2025-05-19T14:30:15+02:00"),
    ("ISO_DATETIME_MS", "2025-05-19T14:30:15.123"),
    ("ISO_DATETIME_MS_UTC", "2025-05-19T14:30:15.123UTC"),
    ("ISO_DATE_BASIC", "20250519"),
    ("ISO_DATETIME_BASIC", "20250519T143015"),
    ("ISO_ORDINAL_DATE", "2025-139"),
    ("ISO_WEEK_DATE", "2025-W21-1"),
    ("UNIX_SECONDS", "1716159600"),
    ("UNIX_MILLISECONDS", "1716159600123"),
    ("UNIX_MICROSECONDS", "1716159600123456"),
    ("UNIX_NANOSECONDS", "1716159600123456789"),
    ("RFC_822_1123", "Mon, 19 May 2025 14:30:15 GMT"),
    ("RFC_850_1036", "Monday, 19-May-25 14:30:15 GMT"),
    ("ANSI_C_ASCTIME", "Mon May 19 14:30:15 2025"),
    ("RFC_3339", "2025-05-19T14:30:15Z"),
    ("US_DATETIME", "05/19/2025 14:30:15"),
    ("EU_DATETIME", "19/05/2025 14:30:15"),
    ("ASIAN_DATETIME", "2025/05/19 14:30:15"),
    ("GERMAN_DATETIME", "19.05.2025 14:30:15"),
    ("UK_DATETIME", "19-May-2025 14:30:15"),
    ("SHORT_EU_DATETIME", "19-05-25 14:30:15"),
    ("SHORT_US_DATETIME", "05-19-25 14:30:15"),
    ("TIME_LEADING_FORMAT", "14:30:15 19/05/2025"),
    ("TIME_24H", "14:30:15"),
    ("TIME_24H_MS", "14:30:15.123"),
    ("TIME_12H", "2:30:15 PM"),
    ("TIME_12H_SHORT", "2:30 PM"),
    ("TIME_CONTINUOUS_MS", "143015123"),
    ("TIME_MILITARY", "143015"),
    ("SQL_TIMESTAMP", "2025-05-19 14:30:15"),
    ("SQL_TIMESTAMP_MS", "2025-05-19 14:30:15.123456"),
    ("ORACLE_TIMESTAMP", "19-MAY-25 02.30.15.1234 PM"),
    ("DB2_TIMESTAMP", "2025-05-19-14.30.15.123456"),
    ("MSSQL_TIMESTAMP", "20250519 14:30:15"),
    ("COMPACT_TIMESTAMP", "20250519143015123"),
    ("POSTGRES_TIMESTAMP_TZ", "2025-05-19 14:30:15.123456+02:00"),
    ("TAGGED_UNIX", "@1716159600"),
    ("SHORT_DATE", "25-05-19"),
    ("SAS_DATETIME", "19MAY2025:14:30:15"),
    ("DOTNET_DATETIME", "5/19/2025 2:30:15 PM"),
    ("HYPHEN_SEPARATED", "2025-05-19-14-30-15"),
    ("CONTINUOUS_DATETIME", "20250519143015"),
    ("NASA_MISSION", "25.139/14:30:15"),
    ("EXIF_DATETIME", "2025:05:19 14:30:15"),
    ("JULIAN_DATE", "246081.5"),
    ("MODIFIED_JULIAN_DATE", "60814.5"),
    ("ORDINAL_DATE_SHORT", "25139"),
    ("IBM_MAINFRAME", "12345678901234567"),
    ("AVIATION_METAR", "191430Z MAY 25"),
    ("BROADCAST_TIMECODE", "139:14:30:15:20"),
    ("SMPTE_TIMECODE", "14:30:15:24"),
    ("ISO_WEEK", "2025-W21"),
    ("ALT_ISO_WEEK", "W21-2025"),
    ("JULIAN_SHORT", "25139"),
    ("AVIATION_MIXED", "1430UTCMay19"),
    ("ZULU_INDICATOR", "2025-05-19T14:30:15.123Z"),
    ("ISO_TZ_OFFSET", "2025-05-19T14:30:15.123+02:00"),
    ("COMPACT_TZ_OFFSET", "2025-05-19T14:30:15+0200"),
    ("GMT_OFFSET", "2025-05-19 14:30:15 GMT+02:00"),
    ("NAMED_TIMEZONE", "2025-05-19 14:30:15 CEST"),
    ("IANA_TIMEZONE", "2025-05-19 14:30:15 Europe/Berlin"),
    ("SIMPLE_UTC_OFFSET", "2025-05-19 14:30:15 UTC+2"),
    ("JAVA8_DATETIME", "2025-05-19T14:30:15.123+02:00[Europe/Berlin]"),
    ("SIGNED_UNIX", "+1716159600"),
    ("HYBRID_TIMESTAMP", "@1716159600123/2025-05-19"),
    ("W3C_DTF", "2025-05-19T14:30:15+02:00"),
    ("XML_TIMESTAMP", "<1716159600>"),
    ("ISO_WEEK_WEEKDAY", "2025.21.1"),
    ("CUSTOM_EPOCH", "1716159600"),
    ("COMPACT_DATETIME", "250519-143015"),
    ("CHINESE_CALENDAR", "乙巳年四月廿二日"),
    ("ISLAMIC_CALENDAR", "1446-11-21"),
    ("HEBREW_CALENDAR", "5785-02-21"),
    ("INDIAN_CALENDAR", "1947 Vaisakha 29"),
    ("THAI_CALENDAR", "2568-05-19"),
    ("JAPANESE_CALENDAR", "令和7年5月19日"),
];

#[test]
fn every_definition_is_usable() {
    let catalog = Catalog::build();
    assert!(catalog.rejections().is_empty());
    assert_eq!(catalog.len(), 79);
    assert_eq!(catalog.entries().len(), 79);
}

#[test]
fn catalog_names_are_unique() {
    let catalog = Catalog::build();
    let mut names: Vec<&str> = catalog.entries().iter().map(|e| e.0).collect();
    names.sort();
    names.dedup();
    assert_eq!(names.len(), 79);
}

#[test]
fn every_entry_has_a_matching_example() {
    let catalog = Catalog::build();
    for (name, example) in EXAMPLES {
        assert!(catalog.get(name).is_some(), "{} is missing", name);
        let found = catalog.classify(example);
        assert!(found.contains(&name), "{} does not match {:?}", example, name);
    }
}

#[test]
fn examples_are_told_apart_from_similar_formats() {
    let catalog = Catalog::build();
    let apart = [
        ("2025-05-19", "UNIX_SECONDS"),
        ("2025-05-19", "ISO_DATE_BASIC"),
        ("20250519", "ISO_DATE"),
        ("05/19/2025 14:30:15", "EU_DATETIME"),
        ("19/05/2025 14:30:15", "US_DATETIME"),
        ("19-05-25 14:30:15", "SHORT_US_DATETIME"),
        ("05-19-25 14:30:15", "SHORT_EU_DATETIME"),
        ("2025-05-19T14:30:15UTC", "RFC_3339"),
        ("2025-05-19T14:30:15", "ISO_DATETIME_UTC"),
        ("14:30:15", "TIME_24H_MS"),
        ("2:30 PM", "TIME_12H"),
        ("1716159600", "TAGGED_UNIX"),
        ("@1716159600", "UNIX_SECONDS"),
        ("2025-W21", "ISO_WEEK_DATE"),
        ("2025-05-19 14:30:15", "NAMED_TIMEZONE"),
        ("2568-05-19", "ISLAMIC_CALENDAR"),
        ("1446-11-21", "THAI_CALENDAR"),
        ("143015", "TIME_CONTINUOUS_MS"),
        ("2025-05-19T14:30:15+0200", "ISO_TZ_OFFSET"),
    ];
    for (example, other) in apart {
        assert!(!catalog.classify(example).contains(&other), "{} matches {}", example, other);
    }
}

#[test]
fn lookup_by_name() {
    let catalog = Catalog::build();
    assert_eq!(catalog.get("UNIX_SECONDS"), Some(r"^[1-9]\d{9}$"));
    assert_eq!(catalog.get("TAGGED_UNIX"), Some(r"^@[1-9]\d{9}$"));
    assert_eq!(catalog.get("NOT_A_FORMAT"), None);
    assert_eq!(catalog.get(""), None);
    assert_eq!(catalog.get("unix_seconds"), None);
}

#[test]
fn entries_are_restartable_and_stable() {
    let catalog = Catalog::build();
    let first = catalog.entries();
    let second = catalog.entries();
    assert_eq!(first, second);
    assert_eq!(first[0], ("ISO_DATE", r"^\d{4}-(0[1-9]|1[0-2])-(0[1-9]|[12]\d|3[01])$"));
    for (name, pattern) in &first {
        assert_eq!(catalog.get(name), Some(*pattern));
    }
}

#[test]
fn duplicate_and_invalid_definitions_are_set_aside() {
    let defs = vec![("A", r"^a$"), ("A", r"^b$"), ("B", r"^(b$"), ("C", r"^c+$")];
    let catalog = Catalog::from_definitions(&defs);
    assert_eq!(catalog.entries(), vec![("A", r"^a$"), ("C", r"^c+$")]);
    let rejections = catalog.rejections();
    assert_eq!(rejections.len(), 2);
    assert_eq!(rejections[0].name, "A");
    assert_eq!(rejections[0].pattern, r"^b$");
    assert_eq!(rejections[0].reason, RejectReason::DuplicateName);
    assert_eq!(rejections[1].name, "B");
    assert_eq!(rejections[1].reason, RejectReason::InvalidPattern);
    assert_eq!(catalog.classify("a"), vec!["A"]);
    assert!(catalog.classify("b").is_empty());
    assert_eq!(catalog.classify("ccc"), vec!["C"]);
    assert!(catalog.classify("").is_empty());
}

#[test]
fn a_name_rejected_for_its_pattern_may_come_again() {
    let defs = vec![("A", r"^(a$"), ("A", r"^a$")];
    let catalog = Catalog::from_definitions(&defs);
    assert_eq!(catalog.entries(), vec![("A", r"^a$")]);
    assert_eq!(catalog.rejections()[0].reason, RejectReason::InvalidPattern);
}

#[test]
fn classify_keeps_catalog_order() {
    let defs = vec![("Z", r"^\d+$"), ("M", r"^x$"), ("A", r"^1\d*$")];
    let catalog = Catalog::from_definitions(&defs);
    assert_eq!(catalog.classify("12"), vec!["Z", "A"]);
    assert_eq!(catalog.classify("x"), vec!["M"]);
    assert_eq!(catalog.classify("x1"), Vec::<&str>::new());
}

#[test]
fn empty_catalog_classifies_nothing() {
    let catalog = Catalog::from_definitions(&Vec::new());
    assert_eq!(catalog.len(), 0);
    assert!(catalog.classify("2025-05-19").is_empty());
    assert!(catalog.entries().is_empty());
}

#[test]
fn flagged_names_follow_the_flags() {
    let defs = vec![("A", r"^a$"), ("B", r"^b$"), ("C", r"^c$")];
    let catalog = Catalog::from_definitions(&defs);
    assert_eq!(catalog.flagged_names(&vec![true, false, true]), vec!["A", "C"]);
    assert_eq!(catalog.flagged_names(&vec![false, false, false]), Vec::<&str>::new());
    assert_eq!(catalog.flagged_names(&vec![false, true, false]), vec!["B"]);
}
