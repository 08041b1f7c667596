//! The service's settings.

use vstd::prelude::*;
use vstd::string::*;
use crate::decimal::{parse_decimal, parse_unsigned};
use crate::error::ImageResizeError;

verus! {

/// The default size limit of a processed image: 5 MB.
pub const MAX_FILE_SIZE_BYTES: u64 = 5 * 1024 * 1024;

/// The default width of the box images are fitted into.
pub const DEFAULT_MAX_WIDTH: u32 = 1920;

/// The default height of the box images are fitted into.
pub const DEFAULT_MAX_HEIGHT: u32 = 1080;

/// The settings of the service.
#[derive(Debug)]
pub struct Config {
    pub dest_bucket: String,
    pub resized_prefix: String,
    /// A prefix of the source keys that is dropped from the destination keys.
    pub source_prefix: String,
    pub max_width: u32,
    pub max_height: u32,
    pub max_file_size: u64,
    pub dynamodb_table: Option<String>,
}

/// The raw text of each setting, as found in the environment (`None` where it is not
/// set).
pub struct ConfigSource {
    pub source_bucket: Option<String>,
    pub dest_bucket: Option<String>,
    pub resized_prefix: Option<String>,
    pub source_prefix: Option<String>,
    pub max_width: Option<String>,
    pub max_height: Option<String>,
    pub max_file_size: Option<String>,
    pub dynamodb_table: Option<String>,
}

/// The value of a numeric setting: its text parsed as an unsigned integer no larger
/// than `limit`, or `default` when it is unset or does not parse.
pub open spec fn numeric_setting(text: Option<String>, limit: nat, default: nat) -> nat {
    match text {
        Some(t) => match parse_unsigned(t@, limit) {
            Some(v) => v,
            None => default,
        },
        None => default,
    }
}

/// The value of a text setting, or `default` when it is unset.
pub open spec fn text_setting(text: Option<String>, default: Seq<char>) -> Seq<char> {
    match text {
        Some(t) => t@,
        None => default,
    }
}

fn number_or(text: &Option<String>, limit: u64, default: u64) -> (v: u64)
    requires
        default <= limit,
    ensures
        v == numeric_setting(*text, limit as nat, default as nat),
        v <= limit,
{
    match text {
        Some(t) => match parse_decimal(t.as_str(), limit) {
            Some(v) => v,
            None => default,
        },
        None => default,
    }
}

fn text_or(text: Option<String>, default: &str) -> (v: String)
    ensures
        v@ == text_setting(text, default@),
{
    match text {
        Some(t) => t,
        None => String::from_str(default),
    }
}

/// The settings built from their raw text `source`: the destination bucket is
/// `DEST_BUCKET`, else `SOURCE_BUCKET`; each other setting is its text, read as
/// described above, or its default.
pub open spec fn built_from(source: ConfigSource, c: Config) -> bool {
    &&& c.dest_bucket@ == match source.dest_bucket {
        Some(d) => d@,
        None => source.source_bucket->0@,
    }
    &&& c.resized_prefix@ == text_setting(source.resized_prefix, "resized/"@)
    &&& c.source_prefix@ == text_setting(source.source_prefix, ""@)
    &&& c.max_width == numeric_setting(source.max_width, u32::MAX as nat, DEFAULT_MAX_WIDTH as nat)
    &&& c.max_height == numeric_setting(source.max_height, u32::MAX as nat, DEFAULT_MAX_HEIGHT as nat)
    &&& c.max_file_size == numeric_setting(source.max_file_size, u64::MAX as nat, MAX_FILE_SIZE_BYTES as nat)
    &&& c.dynamodb_table == source.dynamodb_table
}

impl Config {
    /// Builds the settings from their raw text: `SOURCE_BUCKET` must be set; the
    /// destination bucket is `DEST_BUCKET`, else `SOURCE_BUCKET`; the resized prefix
    /// defaults to `resized/`, the source prefix to nothing, the box to 1920 x 1080 and
    /// the size limit to 5 MB; a number that does not parse takes its default; the
    /// metadata table is optional.
    pub fn from_source(source: ConfigSource) -> (res: Result<Config, ImageResizeError>)
        ensures
            source.source_bucket is None <==> res is Err,
            res matches Err(e) ==> (e matches ImageResizeError::ConfigError(m) && m@ == "SOURCE_BUCKET not set"@),
            res matches Ok(c) ==> built_from(source, c),
    {
        let ConfigSource {
            source_bucket,
            dest_bucket,
            resized_prefix,
            source_prefix,
            max_width,
            max_height,
            max_file_size,
            dynamodb_table,
        } = source;
        let source_bucket = match source_bucket {
            Some(s) => s,
            None => return Err(ImageResizeError::ConfigError(String::from_str("SOURCE_BUCKET not set"))),
        };
        let dest_bucket = match dest_bucket {
            Some(d) => d,
            None => source_bucket,
        };
        let max_width = number_or(&max_width, u32::MAX as u64, DEFAULT_MAX_WIDTH as u64) as u32;
        let max_height = number_or(&max_height, u32::MAX as u64, DEFAULT_MAX_HEIGHT as u64) as u32;
        let max_file_size = number_or(&max_file_size, u64::MAX, MAX_FILE_SIZE_BYTES);
        Ok(Config {
            dest_bucket,
            resized_prefix: text_or(resized_prefix, "resized/"),
            source_prefix: text_or(source_prefix, ""),
            max_width,
            max_height,
            max_file_size,
            dynamodb_table,
        })
    }
}

/// A text setting that is set is taken as it is, whatever it holds, the empty text
/// included; only an unset one takes its default (`resized/` for the resized prefix,
/// nothing for the source prefix). A destination bucket that is set is taken as it
/// is as well, and the metadata table is the one set, if any.
pub proof fn lemma_text_settings_taken_as_given(source: ConfigSource, c: Config)
    requires
        built_from(source, c),
    ensures
        source.resized_prefix matches Some(t) ==> c.resized_prefix@ == t@,
        source.resized_prefix is None ==> c.resized_prefix@ == "resized/"@,
        source.source_prefix matches Some(t) ==> c.source_prefix@ == t@,
        source.source_prefix is None ==> c.source_prefix@ == Seq::<char>::empty(),
        source.dest_bucket matches Some(d) ==> c.dest_bucket@ == d@,
        source.dest_bucket is None ==> c.dest_bucket@ == source.source_bucket->0@,
        c.dynamodb_table == source.dynamodb_table,
{
    reveal_strlit("");
}

/// A number that is set and reads as a decimal number within its type is taken; one
/// that is unset, or does not read so, leaves the default (1920 x 1080, 5 MB).
pub proof fn lemma_numeric_settings_taken_when_valid(source: ConfigSource, c: Config)
    requires
        built_from(source, c),
    ensures
        source.max_width matches Some(t) ==> (parse_unsigned(t@, u32::MAX as nat) matches Some(n) ==> c.max_width == n),
        (source.max_width matches Some(t) ==> parse_unsigned(t@, u32::MAX as nat) is None) ==> c.max_width == 1920,
        source.max_height matches Some(t) ==> (parse_unsigned(t@, u32::MAX as nat) matches Some(n) ==> c.max_height == n),
        (source.max_height matches Some(t) ==> parse_unsigned(t@, u32::MAX as nat) is None) ==> c.max_height == 1080,
        source.max_file_size matches Some(t) ==> (parse_unsigned(t@, u64::MAX as nat) matches Some(n) ==> c.max_file_size == n),
        (source.max_file_size matches Some(t) ==> parse_unsigned(t@, u64::MAX as nat) is None) ==> c.max_file_size == 5 * 1024 * 1024,
{
}

} // verus!
