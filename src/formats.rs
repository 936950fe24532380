//! The fixed set of timestamp formats: for each, its name and the anchored
//! expression that a string must match in full to be of that format.
//!
//! Numeric fields are bounded to their ranges (month 01-12, day 01-31, hour
//! 00-23, minute and second 00-59) so that formats of the same shape, such as
//! month-first and day-first dates, can be told apart.

use vstd::prelude::*;

verus! {

// ISO 8601 Formats

pub const ISO_DATE: &'static str = r"^\d{4}-(0[1-9]|1[0-2])-(0[1-9]|[12]\d|3[01])$";
pub const ISO_DATETIME: &'static str = r"^\d{4}-(0[1-9]|1[0-2])-(0[1-9]|[12]\d|3[01])T([01]\d|2[0-3]):[0-5]\d:[0-5]\d$";
pub const ISO_DATETIME_UTC: &'static str = r"^\d{4}-(0[1-9]|1[0-2])-(0[1-9]|[12]\d|3[01])T([01]\d|2[0-3]):[0-5]\d:[0-5]\d(?:Z|UTC)$";
pub const ISO_DATETIME_TZ: &'static str = r"^\d{4}-(0[1-9]|1[0-2])-(0[1-9]|[12]\d|3[01])T([01]\d|2[0-3]):[0-5]\d:[0-5]\d[+-](?:[01]\d|2[0-3]):[0-5]\d$";
pub const ISO_DATETIME_MS: &'static str = r"^\d{4}-(0[1-9]|1[0-2])-(0[1-9]|[12]\d|3[01])T([01]\d|2[0-3]):[0-5]\d:[0-5]\d\.\d{1,9}$";
pub const ISO_DATETIME_MS_UTC: &'static str = r"^\d{4}-(0[1-9]|1[0-2])-(0[1-9]|[12]\d|3[01])T([01]\d|2[0-3]):[0-5]\d:[0-5]\d\.\d{1,9}(?:Z|UTC)$";
pub const ISO_DATE_BASIC: &'static str = r"^\d{4}(0[1-9]|1[0-2])(0[1-9]|[12]\d|3[01])$";
pub const ISO_DATETIME_BASIC: &'static str = r"^\d{4}(0[1-9]|1[0-2])(0[1-9]|[12]\d|3[01])T([01]\d|2[0-3])[0-5]\d[0-5]\d$";
pub const ISO_ORDINAL_DATE: &'static str = r"^\d{4}-(00[1-9]|0[1-9]\d|[1-2]\d\d|3[0-5]\d|36[0-6])$";
pub const ISO_WEEK_DATE: &'static str = r"^\d{4}-W(0[1-9]|[1-4]\d|5[0-3])-[1-7]$";

// Unix/Epoch Timestamps

pub const UNIX_SECONDS: &'static str = r"^[1-9]\d{9}$";
pub const UNIX_MILLISECONDS: &'static str = r"^[1-9]\d{12}$";
pub const UNIX_MICROSECONDS: &'static str = r"^[1-9]\d{15}$";
pub const UNIX_NANOSECONDS: &'static str = r"^[1-9]\d{18}$";

// RFC Standards

pub const RFC_822_1123: &'static str = r"^(Mon|Tue|Wed|Thu|Fri|Sat|Sun), (0[1-9]|[12]\d|3[01]) (Jan|Feb|Mar|Apr|May|Jun|Jul|Aug|Sep|Oct|Nov|Dec) \d{4} ([01]\d|2[0-3]):[0-5]\d:[0-5]\d GMT$";
pub const RFC_850_1036: &'static str = r"^(Monday|Tuesday|Wednesday|Thursday|Friday|Saturday|Sunday), (0[1-9]|[12]\d|3[01])-(Jan|Feb|Mar|Apr|May|Jun|Jul|Aug|Sep|Oct|Nov|Dec)-\d{2} ([01]\d|2[0-3]):[0-5]\d:[0-5]\d GMT$";
pub const ANSI_C_ASCTIME: &'static str = r"^(Mon|Tue|Wed|Thu|Fri|Sat|Sun) (Jan|Feb|Mar|Apr|May|Jun|Jul|Aug|Sep|Oct|Nov|Dec) ([ 1-9]|[12]\d|3[01]) ([01]\d|2[0-3]):[0-5]\d:[0-5]\d \d{4}$";
pub const RFC_3339: &'static str = r"^\d{4}-(0[1-9]|1[0-2])-(0[1-9]|[12]\d|3[01])T([01]\d|2[0-3]):[0-5]\d:[0-5]\d(?:[+-](?:[01]\d|2[0-3]):[0-5]\d|Z)$";

// Regional and Localized Formats

pub const US_DATETIME: &'static str = r"^(0?[1-9]|1[0-2])/(0?[1-9]|[12]\d|3[01])/\d{4} ([01]\d|2[0-3]):[0-5]\d:[0-5]\d$";
pub const EU_DATETIME: &'static str = r"^(0?[1-9]|[12]\d|3[01])/(0?[1-9]|1[0-2])/\d{4} ([01]\d|2[0-3]):[0-5]\d:[0-5]\d$";
pub const ASIAN_DATETIME: &'static str = r"^\d{4}/(0?[1-9]|1[0-2])/(0?[1-9]|[12]\d|3[01]) ([01]\d|2[0-3]):[0-5]\d:[0-5]\d$";
pub const GERMAN_DATETIME: &'static str = r"^(0?[1-9]|[12]\d|3[01])\.(0?[1-9]|1[0-2])\.\d{4} ([01]\d|2[0-3]):[0-5]\d:[0-5]\d$";
pub const UK_DATETIME: &'static str = r"^(0?[1-9]|[12]\d|3[01])-(Jan|Feb|Mar|Apr|May|Jun|Jul|Aug|Sep|Oct|Nov|Dec)-\d{4} ([01]\d|2[0-3]):[0-5]\d:[0-5]\d$";
pub const SHORT_EU_DATETIME: &'static str = r"^(0?[1-9]|[12]\d|3[01])-(0?[1-9]|1[0-2])-\d{2} ([01]\d|2[0-3]):[0-5]\d:[0-5]\d$";
pub const SHORT_US_DATETIME: &'static str = r"^(0?[1-9]|1[0-2])-(0?[1-9]|[12]\d|3[01])-\d{2} ([01]\d|2[0-3]):[0-5]\d:[0-5]\d$";
pub const TIME_LEADING_FORMAT: &'static str = r"^([01]\d|2[0-3]):[0-5]\d:[0-5]\d (0?[1-9]|[12]\d|3[01])/(0?[1-9]|1[0-2])/\d{4}$";

// Time Formats and Variations

pub const TIME_24H: &'static str = r"^([01]\d|2[0-3]):[0-5]\d:[0-5]\d$";
pub const TIME_24H_MS: &'static str = r"^([01]\d|2[0-3]):[0-5]\d:[0-5]\d\.\d{1,3}$";
pub const TIME_12H: &'static str = r"^(0?[1-9]|1[0-2]):[0-5]\d:[0-5]\d [AP]M$";
pub const TIME_12H_SHORT: &'static str = r"^(0?[1-9]|1[0-2]):[0-5]\d [AP]M$";
pub const TIME_CONTINUOUS_MS: &'static str = r"^([01]\d|2[0-3])[0-5]\d[0-5]\d\d{3}$";
pub const TIME_MILITARY: &'static str = r"^([01]\d|2[0-3])[0-5]\d[0-5]\d$";

// Database Timestamp Formats

pub const SQL_TIMESTAMP: &'static str = r"^\d{4}-(0[1-9]|1[0-2])-(0[1-9]|[12]\d|3[01]) ([01]\d|2[0-3]):[0-5]\d:[0-5]\d$";
pub const SQL_TIMESTAMP_MS: &'static str = r"^\d{4}-(0[1-9]|1[0-2])-(0[1-9]|[12]\d|3[01]) ([01]\d|2[0-3]):[0-5]\d:[0-5]\d\.\d{1,6}$";
pub const ORACLE_TIMESTAMP: &'static str = r"^(0?[1-9]|[12]\d|3[01])-(JAN|FEB|MAR|APR|MAY|JUN|JUL|AUG|SEP|OCT|NOV|DEC)-\d{2} (0?[1-9]|1[0-2])\.(0[0-9]|[1-5]\d)\.(0[0-9]|[1-5]\d)\.\d{1,4} [AP]M$";
pub const DB2_TIMESTAMP: &'static str = r"^\d{4}-(0[1-9]|1[0-2])-(0[1-9]|[12]\d|3[01])-([01]\d|2[0-3])\.(0[0-9]|[1-5]\d)\.(0[0-9]|[1-5]\d)\.\d{1,6}$";
pub const MSSQL_TIMESTAMP: &'static str = r"^\d{4}(0[1-9]|1[0-2])(0[1-9]|[12]\d|3[01]) ([01]\d|2[0-3]):[0-5]\d:[0-5]\d$";

// Programming Language/System Specific

pub const COMPACT_TIMESTAMP: &'static str = r"^\d{4}(0[1-9]|1[0-2])(0[1-9]|[12]\d|3[01])([01]\d|2[0-3])[0-5]\d[0-5]\d\d{1,3}$";
pub const POSTGRES_TIMESTAMP_TZ: &'static str = r"^\d{4}-(0[1-9]|1[0-2])-(0[1-9]|[12]\d|3[01]) ([01]\d|2[0-3]):[0-5]\d:[0-5]\d\.\d{1,6}[+-]([01]\d|2[0-3]):[0-5]\d$";
pub const TAGGED_UNIX: &'static str = r"^@[1-9]\d{9}$";
pub const SHORT_DATE: &'static str = r"^\d{2}-(0[1-9]|1[0-2])-(0[1-9]|[12]\d|3[01])$";
pub const SAS_DATETIME: &'static str = r"^(0?[1-9]|[12]\d|3[01])(JAN|FEB|MAR|APR|MAY|JUN|JUL|AUG|SEP|OCT|NOV|DEC)\d{4}:([01]\d|2[0-3]):[0-5]\d:[0-5]\d$";
pub const DOTNET_DATETIME: &'static str = r"^(0?[1-9]|1[0-2])/(0?[1-9]|[12]\d|3[01])/\d{4} (0?[1-9]|1[0-2]):[0-5]\d:[0-5]\d [AP]M$";

// Legacy and Specialized Formats

pub const HYPHEN_SEPARATED: &'static str = r"^\d{4}-(0[1-9]|1[0-2])-(0[1-9]|[12]\d|3[01])-([01]\d|2[0-3])-[0-5]\d-[0-5]\d$";
pub const CONTINUOUS_DATETIME: &'static str = r"^\d{4}(0[1-9]|1[0-2])(0[1-9]|[12]\d|3[01])([01]\d|2[0-3])[0-5]\d[0-5]\d$";
pub const NASA_MISSION: &'static str = r"^\d{2}\.(00[1-9]|0[1-9]\d|[1-2]\d\d|3[0-5]\d|36[0-6])/([01]\d|2[0-3]):[0-5]\d:[0-5]\d$";
pub const EXIF_DATETIME: &'static str = r"^\d{4}:(0[1-9]|1[0-2]):(0[1-9]|[12]\d|3[01]) ([01]\d|2[0-3]):[0-5]\d:[0-5]\d$";
pub const JULIAN_DATE: &'static str = r"^24\d{4}\.\d{1,5}$";
pub const MODIFIED_JULIAN_DATE: &'static str = r"^[5-6]\d{4}\.\d{1,5}$";
pub const ORDINAL_DATE_SHORT: &'static str = r"^\d{2}(00[1-9]|0[1-9]\d|[1-2]\d\d|3[0-5]\d|36[0-6])$";
pub const IBM_MAINFRAME: &'static str = r"^[1-2]\d{16}$";

// Industry-Specific Formats

pub const AVIATION_METAR: &'static str = r"^(0[1-9]|[12]\d|3[01])([01]\d|2[0-3])[0-5]\dZ (JAN|FEB|MAR|APR|MAY|JUN|JUL|AUG|SEP|OCT|NOV|DEC) \d{2}$";
pub const BROADCAST_TIMECODE: &'static str = r"^(00[1-9]|0[1-9]\d|[1-2]\d\d|3[0-5]\d|36[0-6]):([01]\d|2[0-3]):[0-5]\d:[0-5]\d:[0-5]\d$";
pub const SMPTE_TIMECODE: &'static str = r"^([01]\d|2[0-3]):[0-5]\d:[0-5]\d:([0-2]\d|3[0-9])$";
pub const ISO_WEEK: &'static str = r"^\d{4}-W(0[1-9]|[1-4]\d|5[0-3])$";
pub const ALT_ISO_WEEK: &'static str = r"^W(0[1-9]|[1-4]\d|5[0-3])-\d{4}$";
pub const JULIAN_SHORT: &'static str = r"^\d{2}(00[1-9]|0[1-9]\d|[1-2]\d\d|3[0-5]\d|36[0-6])$";
pub const AVIATION_MIXED: &'static str = r"^([01]\d|2[0-3])[0-5]\dUTC(Jan|Feb|Mar|Apr|May|Jun|Jul|Aug|Sep|Oct|Nov|Dec)(0[1-9]|[12]\d|3[01])$";

// Timezone Representations
//
// Each of these carries an explicit zone marker, so that it does not
// collide with the plain date-time formats.

pub const ZULU_INDICATOR: &'static str = r"^\d{4}-(0[1-9]|1[0-2])-(0[1-9]|[12]\d|3[01])T([01]\d|2[0-3]):[0-5]\d:[0-5]\d(?:\.\d{1,9})?Z$";
pub const ISO_TZ_OFFSET: &'static str = r"^\d{4}-(0[1-9]|1[0-2])-(0[1-9]|[12]\d|3[01])T([01]\d|2[0-3]):[0-5]\d:[0-5]\d(?:\.\d{1,9})?[+-]([01]\d|2[0-3]):[0-5]\d$";
pub const COMPACT_TZ_OFFSET: &'static str = r"^\d{4}-(0[1-9]|1[0-2])-(0[1-9]|[12]\d|3[01])T([01]\d|2[0-3]):[0-5]\d:[0-5]\d(?:\.\d{1,9})?[+-]([01]\d|2[0-3])[0-5]\d$";
pub const GMT_OFFSET: &'static str = r"^\d{4}-(0[1-9]|1[0-2])-(0[1-9]|[12]\d|3[01]) ([01]\d|2[0-3]):[0-5]\d:[0-5]\d GMT[+-]([01]\d|2[0-3]):[0-5]\d$";
pub const NAMED_TIMEZONE: &'static str = r"^\d{4}-(0[1-9]|1[0-2])-(0[1-9]|[12]\d|3[01]) ([01]\d|2[0-3]):[0-5]\d:[0-5]\d [A-Z]{3,5}$";
pub const IANA_TIMEZONE: &'static str = r"^\d{4}-(0[1-9]|1[0-2])-(0[1-9]|[12]\d|3[01]) ([01]\d|2[0-3]):[0-5]\d:[0-5]\d [A-Za-z]+/[A-Za-z_]+$";
pub const SIMPLE_UTC_OFFSET: &'static str = r"^\d{4}-(0[1-9]|1[0-2])-(0[1-9]|[12]\d|3[01]) ([01]\d|2[0-3]):[0-5]\d:[0-5]\d UTC[+-]([01]?\d|2[0-3])$";

// Special Format Considerations

pub const JAVA8_DATETIME: &'static str = r"^\d{4}-(0[1-9]|1[0-2])-(0[1-9]|[12]\d|3[01])T([01]\d|2[0-3]):[0-5]\d:[0-5]\d\.\d{1,3}[+-]([01]\d|2[0-3]):[0-5]\d\[[A-Za-z/]+\]$";
pub const SIGNED_UNIX: &'static str = r"^[+-][1-9]\d{9}$";
pub const HYBRID_TIMESTAMP: &'static str = r"^@[1-9]\d{12}/\d{4}-(0[1-9]|1[0-2])-(0[1-9]|[12]\d|3[01])$";
pub const W3C_DTF: &'static str = r"^\d{4}-(0[1-9]|1[0-2])-(0[1-9]|[12]\d|3[01])T([01]\d|2[0-3]):[0-5]\d:[0-5]\d[+-]([01]\d|2[0-3]):[0-5]\d$";
pub const XML_TIMESTAMP: &'static str = r"^<[1-9]\d{9}>$";
pub const ISO_WEEK_WEEKDAY: &'static str = r"^\d{4}\.(0[1-9]|[1-4]\d|5[0-3])\.[1-7]$";
pub const CUSTOM_EPOCH: &'static str = r"^(?:[1-9]\d{9}|[1-9]\d{12}|[1-9]\d{15}|[1-9]\d{18})$";
pub const COMPACT_DATETIME: &'static str = r"^\d{2}(0[1-9]|1[0-2])(0[1-9]|[12]\d|3[01])-([01]\d|2[0-3])[0-5]\d[0-5]\d$";

// Calendar-Specific Formats

pub const CHINESE_CALENDAR: &'static str = r"^[\u4E00-\u9FFF年月日]+$";
pub const ISLAMIC_CALENDAR: &'static str = r"^1[3-5]\d{2}-(0[1-9]|1[0-2])-(0[1-9]|[12]\d|30)$";
pub const HEBREW_CALENDAR: &'static str = r"^5[7-8]\d{2}-(0[1-9]|1[0-2])-(0[1-9]|[12]\d|30)$";
pub const INDIAN_CALENDAR: &'static str = r"^\d{4} (Chaitra|Vaisakha|Jyaishtha|Ashadha|Sravana|Bhadra|Asvina|Kartika|Agrahayana|Pausha|Magha|Phalguna) (0?[1-9]|[12]\d|3[0-1])$";
pub const THAI_CALENDAR: &'static str = r"^25\d{2}-(0[1-9]|1[0-2])-(0[1-9]|[12]\d|3[01])$";
pub const JAPANESE_CALENDAR: &'static str = r"^(令和|平成|昭和|大正|明治)\d{1,2}年(0?[1-9]|1[0-2])月(0?[1-9]|[12]\d|3[01])日$";

/// The catalog's definitions as (name, pattern) pairs, in catalog order.
pub open spec fn format_list() -> Seq<(&'static str, &'static str)> {
    seq![
        ("ISO_DATE", ISO_DATE),
        ("ISO_DATETIME", ISO_DATETIME),
        ("ISO_DATETIME_UTC", ISO_DATETIME_UTC),
        ("ISO_DATETIME_TZ", ISO_DATETIME_TZ),
        ("ISO_DATETIME_MS", ISO_DATETIME_MS),
        ("ISO_DATETIME_MS_UTC", ISO_DATETIME_MS_UTC),
        ("ISO_DATE_BASIC", ISO_DATE_BASIC),
        ("ISO_DATETIME_BASIC", ISO_DATETIME_BASIC),
        ("ISO_ORDINAL_DATE", ISO_ORDINAL_DATE),
        ("ISO_WEEK_DATE", ISO_WEEK_DATE),
        ("UNIX_SECONDS", UNIX_SECONDS),
        ("UNIX_MILLISECONDS", UNIX_MILLISECONDS),
        ("UNIX_MICROSECONDS", UNIX_MICROSECONDS),
        ("UNIX_NANOSECONDS", UNIX_NANOSECONDS),
        ("RFC_822_1123", RFC_822_1123),
        ("RFC_850_1036", RFC_850_1036),
        ("ANSI_C_ASCTIME", ANSI_C_ASCTIME),
        ("RFC_3339", RFC_3339),
        ("US_DATETIME", US_DATETIME),
        ("EU_DATETIME", EU_DATETIME),
        ("ASIAN_DATETIME", ASIAN_DATETIME),
        ("GERMAN_DATETIME", GERMAN_DATETIME),
        ("UK_DATETIME", UK_DATETIME),
        ("SHORT_EU_DATETIME", SHORT_EU_DATETIME),
        ("SHORT_US_DATETIME", SHORT_US_DATETIME),
        ("TIME_LEADING_FORMAT", TIME_LEADING_FORMAT),
        ("TIME_24H", TIME_24H),
        ("TIME_24H_MS", TIME_24H_MS),
        ("TIME_12H", TIME_12H),
        ("TIME_12H_SHORT", TIME_12H_SHORT),
        ("TIME_CONTINUOUS_MS", TIME_CONTINUOUS_MS),
        ("TIME_MILITARY", TIME_MILITARY),
        ("SQL_TIMESTAMP", SQL_TIMESTAMP),
        ("SQL_TIMESTAMP_MS", SQL_TIMESTAMP_MS),
        ("ORACLE_TIMESTAMP", ORACLE_TIMESTAMP),
        ("DB2_TIMESTAMP", DB2_TIMESTAMP),
        ("MSSQL_TIMESTAMP", MSSQL_TIMESTAMP),
        ("COMPACT_TIMESTAMP", COMPACT_TIMESTAMP),
        ("POSTGRES_TIMESTAMP_TZ", POSTGRES_TIMESTAMP_TZ),
        ("TAGGED_UNIX", TAGGED_UNIX),
        ("SHORT_DATE", SHORT_DATE),
        ("SAS_DATETIME", SAS_DATETIME),
        ("DOTNET_DATETIME", DOTNET_DATETIME),
        ("HYPHEN_SEPARATED", HYPHEN_SEPARATED),
        ("CONTINUOUS_DATETIME", CONTINUOUS_DATETIME),
        ("NASA_MISSION", NASA_MISSION),
        ("EXIF_DATETIME", EXIF_DATETIME),
        ("JULIAN_DATE", JULIAN_DATE),
        ("MODIFIED_JULIAN_DATE", MODIFIED_JULIAN_DATE),
        ("ORDINAL_DATE_SHORT", ORDINAL_DATE_SHORT),
        ("IBM_MAINFRAME", IBM_MAINFRAME),
        ("AVIATION_METAR", AVIATION_METAR),
        ("BROADCAST_TIMECODE", BROADCAST_TIMECODE),
        ("SMPTE_TIMECODE", SMPTE_TIMECODE),
        ("ISO_WEEK", ISO_WEEK),
        ("ALT_ISO_WEEK", ALT_ISO_WEEK),
        ("JULIAN_SHORT", JULIAN_SHORT),
        ("AVIATION_MIXED", AVIATION_MIXED),
        ("ZULU_INDICATOR", ZULU_INDICATOR),
        ("ISO_TZ_OFFSET", ISO_TZ_OFFSET),
        ("COMPACT_TZ_OFFSET", COMPACT_TZ_OFFSET),
        ("GMT_OFFSET", GMT_OFFSET),
        ("NAMED_TIMEZONE", NAMED_TIMEZONE),
        ("IANA_TIMEZONE", IANA_TIMEZONE),
        ("SIMPLE_UTC_OFFSET", SIMPLE_UTC_OFFSET),
        ("JAVA8_DATETIME", JAVA8_DATETIME),
        ("SIGNED_UNIX", SIGNED_UNIX),
        ("HYBRID_TIMESTAMP", HYBRID_TIMESTAMP),
        ("W3C_DTF", W3C_DTF),
        ("XML_TIMESTAMP", XML_TIMESTAMP),
        ("ISO_WEEK_WEEKDAY", ISO_WEEK_WEEKDAY),
        ("CUSTOM_EPOCH", CUSTOM_EPOCH),
        ("COMPACT_DATETIME", COMPACT_DATETIME),
        ("CHINESE_CALENDAR", CHINESE_CALENDAR),
        ("ISLAMIC_CALENDAR", ISLAMIC_CALENDAR),
        ("HEBREW_CALENDAR", HEBREW_CALENDAR),
        ("INDIAN_CALENDAR", INDIAN_CALENDAR),
        ("THAI_CALENDAR", THAI_CALENDAR),
        ("JAPANESE_CALENDAR", JAPANESE_CALENDAR),
    ]
}

/// The catalog's definitions as (name, pattern) pairs, in catalog order.
pub fn format_definitions() -> (r: Vec<(&'static str, &'static str)>)
    ensures
        r@ == format_list(),
{
    vec![
        ("ISO_DATE", ISO_DATE),
        ("ISO_DATETIME", ISO_DATETIME),
        ("ISO_DATETIME_UTC", ISO_DATETIME_UTC),
        ("ISO_DATETIME_TZ", ISO_DATETIME_TZ),
        ("ISO_DATETIME_MS", ISO_DATETIME_MS),
        ("ISO_DATETIME_MS_UTC", ISO_DATETIME_MS_UTC),
        ("ISO_DATE_BASIC", ISO_DATE_BASIC),
        ("ISO_DATETIME_BASIC", ISO_DATETIME_BASIC),
        ("ISO_ORDINAL_DATE", ISO_ORDINAL_DATE),
        ("ISO_WEEK_DATE", ISO_WEEK_DATE),
        ("UNIX_SECONDS", UNIX_SECONDS),
        ("UNIX_MILLISECONDS", UNIX_MILLISECONDS),
        ("UNIX_MICROSECONDS", UNIX_MICROSECONDS),
        ("UNIX_NANOSECONDS", UNIX_NANOSECONDS),
        ("RFC_822_1123", RFC_822_1123),
        ("RFC_850_1036", RFC_850_1036),
        ("ANSI_C_ASCTIME", ANSI_C_ASCTIME),
        ("RFC_3339", RFC_3339),
        ("US_DATETIME", US_DATETIME),
        ("EU_DATETIME", EU_DATETIME),
        ("ASIAN_DATETIME", ASIAN_DATETIME),
        ("GERMAN_DATETIME", GERMAN_DATETIME),
        ("UK_DATETIME", UK_DATETIME),
        ("SHORT_EU_DATETIME", SHORT_EU_DATETIME),
        ("SHORT_US_DATETIME", SHORT_US_DATETIME),
        ("TIME_LEADING_FORMAT", TIME_LEADING_FORMAT),
        ("TIME_24H", TIME_24H),
        ("TIME_24H_MS", TIME_24H_MS),
        ("TIME_12H", TIME_12H),
        ("TIME_12H_SHORT", TIME_12H_SHORT),
        ("TIME_CONTINUOUS_MS", TIME_CONTINUOUS_MS),
        ("TIME_MILITARY", TIME_MILITARY),
        ("SQL_TIMESTAMP", SQL_TIMESTAMP),
        ("SQL_TIMESTAMP_MS", SQL_TIMESTAMP_MS),
        ("ORACLE_TIMESTAMP", ORACLE_TIMESTAMP),
        ("DB2_TIMESTAMP", DB2_TIMESTAMP),
        ("MSSQL_TIMESTAMP", MSSQL_TIMESTAMP),
        ("COMPACT_TIMESTAMP", COMPACT_TIMESTAMP),
        ("POSTGRES_TIMESTAMP_TZ", POSTGRES_TIMESTAMP_TZ),
        ("TAGGED_UNIX", TAGGED_UNIX),
        ("SHORT_DATE", SHORT_DATE),
        ("SAS_DATETIME", SAS_DATETIME),
        ("DOTNET_DATETIME", DOTNET_DATETIME),
        ("HYPHEN_SEPARATED", HYPHEN_SEPARATED),
        ("CONTINUOUS_DATETIME", CONTINUOUS_DATETIME),
        ("NASA_MISSION", NASA_MISSION),
        ("EXIF_DATETIME", EXIF_DATETIME),
        ("JULIAN_DATE", JULIAN_DATE),
        ("MODIFIED_JULIAN_DATE", MODIFIED_JULIAN_DATE),
        ("ORDINAL_DATE_SHORT", ORDINAL_DATE_SHORT),
        ("IBM_MAINFRAME", IBM_MAINFRAME),
        ("AVIATION_METAR", AVIATION_METAR),
        ("BROADCAST_TIMECODE", BROADCAST_TIMECODE),
        ("SMPTE_TIMECODE", SMPTE_TIMECODE),
        ("ISO_WEEK", ISO_WEEK),
        ("ALT_ISO_WEEK", ALT_ISO_WEEK),
        ("JULIAN_SHORT", JULIAN_SHORT),
        ("AVIATION_MIXED", AVIATION_MIXED),
        ("ZULU_INDICATOR", ZULU_INDICATOR),
        ("ISO_TZ_OFFSET", ISO_TZ_OFFSET),
        ("COMPACT_TZ_OFFSET", COMPACT_TZ_OFFSET),
        ("GMT_OFFSET", GMT_OFFSET),
        ("NAMED_TIMEZONE", NAMED_TIMEZONE),
        ("IANA_TIMEZONE", IANA_TIMEZONE),
        ("SIMPLE_UTC_OFFSET", SIMPLE_UTC_OFFSET),
        ("JAVA8_DATETIME", JAVA8_DATETIME),
        ("SIGNED_UNIX", SIGNED_UNIX),
        ("HYBRID_TIMESTAMP", HYBRID_TIMESTAMP),
        ("W3C_DTF", W3C_DTF),
        ("XML_TIMESTAMP", XML_TIMESTAMP),
        ("ISO_WEEK_WEEKDAY", ISO_WEEK_WEEKDAY),
        ("CUSTOM_EPOCH", CUSTOM_EPOCH),
        ("COMPACT_DATETIME", COMPACT_DATETIME),
        ("CHINESE_CALENDAR", CHINESE_CALENDAR),
        ("ISLAMIC_CALENDAR", ISLAMIC_CALENDAR),
        ("HEBREW_CALENDAR", HEBREW_CALENDAR),
        ("INDIAN_CALENDAR", INDIAN_CALENDAR),
        ("THAI_CALENDAR", THAI_CALENDAR),
        ("JAPANESE_CALENDAR", JAPANESE_CALENDAR),
    ]
}

} // verus!
