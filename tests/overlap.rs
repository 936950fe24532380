use std::collections::HashMap;

use timestamp_formats::{category_of, Catalog};

fn probes() -> Vec<&'static str> {
    vec![
        "2025-05-19",
        "2025-05-19T14:30:15",
        "2025-05-19T14:30:15Z",
        "2025-05-19 14:30:15",
        "05/19/2025 14:30:15",
        "19/05/2025 14:30:15",
        "14:30:15",
        "1716159600",
        "20250519",
        "250519-143015",
    ]
}

#[test]
fn test_detect_overlapping_patterns() {
    let catalog = Catalog::build();
    let overlaps = catalog.find_overlaps(&probes());

    println!("Found {} potentially overlapping pattern pairs:", overlaps.len());
    for (name1, name2) in &overlaps {
        println!("Overlap between '{}' and '{}'", name1, name2);
        println!("  Pattern 1: {}", catalog.get(name1).unwrap());
        println!("  Pattern 2: {}", catalog.get(name2).unwrap());
    }

    let mut category_overlaps: HashMap<(&str, &str), usize> = HashMap::new();
    for (name1, name2) in &overlaps {
        let category1 = category_of(name1);
        let category2 = category_of(name2);
        if category1 != category2 {
            let key = if category1 < category2 {
                (category1, category2)
            } else {
                (category2, category1)
            };
            *category_overlaps.entry(key).or_insert(0) += 1;
        }
    }

    println!("\nOverlaps between categories:");
    for ((cat1, cat2), count) in category_overlaps {
        println!("{} overlaps between '{}' and '{}'", count, cat1, cat2);
    }
}

#[test]
fn shared_probe_pairs_are_reported() {
    let catalog = Catalog::build();
    let overlaps = catalog.find_overlaps(&probes());
    let has = |a: &str, b: &str| overlaps.iter().any(|p| (p.0 == a && p.1 == b) || (p.0 == b && p.1 == a));
    assert!(has("UNIX_SECONDS", "CUSTOM_EPOCH"));
    assert!(has("ISO_DATETIME_UTC", "RFC_3339"));
    assert!(!has("US_DATETIME", "EU_DATETIME"));
    assert!(!has("ISO_DATE", "UNIX_SECONDS"));
}

#[test]
fn overlaps_follow_catalog_order() {
    let defs = vec![("A", r"^\d+$"), ("B", r"^1\d*$"), ("C", r"^x$"), ("D", r"^.*$")];
    let catalog = Catalog::from_definitions(&defs);
    let overlaps = catalog.find_overlaps(&vec!["12", "x"]);
    assert_eq!(overlaps, vec![("A", "B"), ("A", "D"), ("B", "D"), ("C", "D")]);
    assert!(catalog.find_overlaps(&Vec::new()).is_empty());
    assert!(catalog.find_overlaps(&vec!["zz"]).is_empty());
    assert_eq!(catalog.classify("x"), vec!["C", "D"]);
}

#[test]
fn categories_of_names() {
    assert_eq!(category_of("ISO_DATE"), "ISO");
    assert_eq!(category_of("ISO_TZ_OFFSET"), "ISO");
    assert_eq!(category_of("UNIX_SECONDS"), "UNIX");
    assert_eq!(category_of("RFC_3339"), "RFC");
    assert_eq!(category_of("US_DATETIME"), "DATETIME");
    assert_eq!(category_of("TIME_24H"), "TIME");
    assert_eq!(category_of("SQL_TIMESTAMP"), "DATABASE");
    assert_eq!(category_of("THAI_CALENDAR"), "CALENDAR");
    assert_eq!(category_of("COMPACT_TZ_OFFSET"), "TIMEZONE");
    assert_eq!(category_of("IANA_TIMEZONE"), "TIMEZONE");
    assert_eq!(category_of("NASA_MISSION"), "OTHER");
    assert_eq!(category_of(""), "OTHER");
}
