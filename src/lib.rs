//! Classification of timestamp strings against a catalog of named formats.
//!
//! Each format is an anchored regular expression. A [`Catalog`] is built
//! once from the fixed definitions, setting aside any definition that cannot
//! be used, and then answers which formats a given string matches.

mod catalog;
mod formats;
mod matcher;
mod overlap;
mod text;

pub use catalog::{
    definitions_view, entries_view, flagged, format_table, has_unique_names, identify_timestamp_format,
    lemma_classify_deterministic, lemma_every_definition_accounted, lemma_flagged_matching,
    lemma_matching_names_distinct,
    lemma_matching_names_member, lemma_usable_names_unique, matching_names, names_of, rejected,
    rejection_of, rejections_view, texts_view, usable, Catalog, CatalogEntry, Definition,
    RejectReason, Rejection,
};
pub use formats::{format_definitions, format_list};
pub use matcher::{regex_compiles, regex_finds_match, Matcher};
pub use overlap::{
    category, category_of, lemma_reported_pairs_share_probe, lemma_shared_probe_is_reported,
    overlaps, overlaps_of, overlaps_upto, probes_view, share_probe,
};
pub use text::{
    contains_text, ends_with_text, has_infix, has_prefix, has_suffix, occurs_at, same_text,
    starts_with_text, text_occurs_at,
};
