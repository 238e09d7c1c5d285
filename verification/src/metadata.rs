//! `GET /api/metadata`: the `[meta]` section of the project's TOML file.
use vstd::prelude::*;

use crate::speech::INTERNAL_SERVER_ERROR;

verus! {

#[verifier::external_type_specification]
#[verifier::external_body]
#[verifier::reject_recursive_types(K)]
#[verifier::reject_recursive_types(V)]
pub struct ExTomlMap<K, V>(toml::map::Map<K, V>);

#[verifier::external_type_specification]
#[verifier::external_body]
pub struct ExTomlValue(toml::Value);

#[verifier::external_type_specification]
#[verifier::external_body]
pub struct ExTomlError(toml::de::Error);

/// Why `GET /api/metadata` failed.
pub enum MetadataFailure {
    /// The metadata file could not be read.
    Unreadable,
    /// The metadata file is not valid TOML.
    Unparsable,
    /// The metadata file has no `[meta]` section.
    MissingMeta,
}

/// The body of a failed `GET /api/metadata`, answered with `INTERNAL_SERVER_ERROR`.
pub struct MetadataError {
    pub error: String,
    pub message: String,
}

/// The top-level keys of a TOML document, as `toml::from_str::<toml::Table>`
/// reads it; `None` where the text is not a valid TOML document.
pub uninterp spec fn toml_document_keys(content: Seq<char>) -> Option<Set<Seq<char>>>;

/// The JSON text `serde_json::to_string` writes for the value under `key` of
/// a TOML document, as `toml::from_str::<toml::Table>` reads it; `None` where
/// the key is absent.
pub uninterp spec fn document_entry_json(content: Seq<char>, key: Seq<char>) -> Option<Seq<char>>;

/// The keys a TOML table holds.
pub uninterp spec fn table_keys(table: toml::map::Map<String, toml::Value>) -> Set<Seq<char>>;

/// The JSON text `serde_json::to_string` writes for the value a TOML table
/// holds under `key`; `None` where the key is absent.
pub uninterp spec fn table_entry_json(table: toml::map::Map<String, toml::Value>, key: Seq<char>) -> Option<Seq<char>>;

/// The message that goes with a metadata failure.
pub open spec fn metadata_message(failure: MetadataFailure) -> Seq<char> {
    match failure {
        MetadataFailure::MissingMeta => "Missing [meta] section in deepgram.toml"@,
        _ => "Failed to read metadata from deepgram.toml"@,
    }
}

/// What `GET /api/metadata` finds in a file's content (`None` where it could
/// not be read): the JSON text of the document's top-level `meta` entry, or the failure.
pub open spec fn metadata_outcome_of(content: Option<Seq<char>>) -> Result<Seq<char>, MetadataFailure> {
    match content {
        None => Err(MetadataFailure::Unreadable),
        Some(text) => match toml_document_keys(text) {
            None => Err(MetadataFailure::Unparsable),
            Some(keys) => if !keys.contains("meta"@) {
                Err(MetadataFailure::MissingMeta)
            } else {
                Ok(document_entry_json(text, "meta"@)->0)
            },
        },
    }
}

/// Calls `toml::from_str::<toml::Table>`: the document's top-level table.
#[verifier::external_body]
fn parse_toml_table(content: &str) -> (r: Result<toml::map::Map<String, toml::Value>, toml::de::Error>)
    ensures
        match r {
            Ok(t) => toml_document_keys(content@) == Some(table_keys(t)) && forall|k: Seq<char>|
                #[trigger] table_entry_json(t, k) == document_entry_json(content@, k),
            Err(_) => toml_document_keys(content@) is None,
        },
{
    toml::from_str::<toml::Table>(content)
}

/// Calls `toml::map::Map::remove` to take the entry under `key` out of the
/// table, and hands it back as the JSON text `serde_json::to_string` writes.
/// That call has no failure path for a `toml::Value` (keys are strings,
/// non-finite floats are written as `null`, datetimes as strings), so the
/// entry is always written; the empty default for the error is never used.
#[verifier::external_body]
fn take_entry_json(table: &mut toml::map::Map<String, toml::Value>, key: &str) -> (r: Option<String>)
    ensures
        r is Some <==> table_keys(*old(table)).contains(key@),
        r matches Some(text) ==> table_entry_json(*old(table), key@) == Some(text@),
        table_keys(*final(table)) == table_keys(*old(table)).remove(key@),
{
    table.remove(key).map(|v| serde_json::to_string(&v).unwrap_or_default())
}

/// What `GET /api/metadata` answers after the parse: `None` where the file is
/// not valid TOML, else the JSON text of its top-level `meta` entry, if any.
pub fn metadata_result(parsed: Option<Option<String>>) -> (r: Result<String, MetadataFailure>)
    ensures
        match parsed {
            None => r matches Err(f) && f == MetadataFailure::Unparsable,
            Some(None) => r matches Err(f) && f == MetadataFailure::MissingMeta,
            Some(Some(j)) => r matches Ok(k) && k@ == j@,
        },
{
    match parsed {
        None => Err(MetadataFailure::Unparsable),
        Some(None) => Err(MetadataFailure::MissingMeta),
        Some(Some(j)) => Ok(j),
    }
}

/// The `[meta]` section of the metadata file as JSON text, given the file's
/// content (`None` where it could not be read).
pub fn handle_metadata(content: Option<String>) -> (r: Result<String, MetadataFailure>)
    ensures
        match r {
            Ok(j) => metadata_outcome_of(crate::speech::opt_string(content)) == Ok::<Seq<char>, MetadataFailure>(j@),
            Err(f) => metadata_outcome_of(crate::speech::opt_string(content)) == Err::<Seq<char>, MetadataFailure>(f),
        },
{
    let text = match content {
        Some(t) => t,
        None => return Err(MetadataFailure::Unreadable),
    };
    let parsed = match parse_toml_table(text.as_str()) {
        Ok(mut table) => {
            proof {
                reveal_strlit("meta");
            }
            Some(take_entry_json(&mut table, "meta"))
        },
        Err(_) => None,
    };
    metadata_result(parsed)
}

/// The status of a failed `GET /api/metadata`.
pub fn metadata_status() -> (r: u16)
    ensures
        r == INTERNAL_SERVER_ERROR,
{
    INTERNAL_SERVER_ERROR
}

/// The body of a failed `GET /api/metadata`.
pub fn metadata_error(failure: MetadataFailure) -> (r: MetadataError)
    ensures
        r.error@ == "INTERNAL_SERVER_ERROR"@,
        r.message@ == metadata_message(failure),
{
    let message = match failure {
        MetadataFailure::MissingMeta => "Missing [meta] section in deepgram.toml".to_owned(),
        _ => "Failed to read metadata from deepgram.toml".to_owned(),
    };
    MetadataError { error: "INTERNAL_SERVER_ERROR".to_owned(), message }
}

} // verus!
