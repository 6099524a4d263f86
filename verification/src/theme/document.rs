//! The TOML document a theme file holds, as far as the reader looks into it: the top-level keys,
//! and for each whether its value is a string and how it reads.

use vstd::prelude::*;

verus! {

#[verifier::external_type_specification]
#[verifier::external_body]
#[verifier::reject_recursive_types(K)]
#[verifier::reject_recursive_types(V)]
pub struct ExTomlMap<K, V>(toml::map::Map<K, V>);

#[verifier::external_type_specification]
#[verifier::external_body]
pub struct ExTomlValue(toml::Value);

/// What the reader sees of one top-level value: its text when it is a TOML string, or the TOML
/// it renders as otherwise.
#[derive(Debug, PartialEq, Eq)]
pub enum Entry {
    Text(String),
    Other(String),
}

/// An [`Entry`] as plain text.
pub enum EntryView {
    Text(Seq<char>),
    Other(Seq<char>),
}

impl View for Entry {
    type V = EntryView;

    open spec fn view(&self) -> EntryView {
        match self {
            Entry::Text(s) => EntryView::Text(s@),
            Entry::Other(s) => EntryView::Other(s@),
        }
    }
}

/// The top-level keys of a parsed table, each with what its value reads as.
pub uninterp spec fn table_entries(table: toml::Table) -> Map<Seq<char>, EntryView>;

/// The top-level entries of `text` read as a TOML document, or `None` when `text` is not valid
/// TOML.
pub uninterp spec fn toml_document(text: Seq<char>) -> Option<Map<Seq<char>, EntryView>>;

/// What `toml::from_str` reports through `Error::message` when `text` is not a TOML document: the
/// parser's reason alone, without the quoted line of the file.
pub uninterp spec fn toml_cause(text: Seq<char>) -> Seq<char>;

/// Parses `text` with `toml::from_str` into a `toml::Table`; a failure is carried as the cause
/// `toml::de::Error::message` gives. Claimed: the parse succeeds exactly when `text` is a TOML
/// document, the table it yields holds that document's top-level entries, and a failure's cause
/// is the one the parser gives for `text`. What a document is, what each value renders as and what
/// a cause reads are left to the names [`toml_document`] and [`toml_cause`]; only that they depend
/// on `text` alone is claimed.
#[verifier::external_body]
pub fn parse_document(text: &str) -> (parsed: Result<toml::Table, String>)
    ensures
        parsed is Ok <==> toml_document(text@) is Some,
        parsed matches Ok(table) ==> table_entries(table) == toml_document(text@).unwrap(),
        parsed matches Err(cause) ==> cause@ == toml_cause(text@),
{
    toml::from_str(text).map_err(|error: toml::de::Error| error.message().to_string())
}

/// Looks `key` up among the table's top-level entries with `Map::get`, and reads the value found:
/// a `Value::String` as its text, anything else as `Value`'s `Display` rendering. Claimed: the
/// entry is there exactly when the table holds the key, and reads as the table's contents say.
#[verifier::external_body]
pub fn entry(table: &toml::Table, key: &str) -> (found: Option<Entry>)
    ensures
        found is Some <==> table_entries(*table).contains_key(key@),
        found matches Some(e) ==> e@ == table_entries(*table)[key@],
{
    table.get(key).map(|value| match value {
        toml::Value::String(text) => Entry::Text(text.clone()),
        other => Entry::Other(other.to_string()),
    })
}

} // verus!
