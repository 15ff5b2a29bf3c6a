//! The schema as structured data: what the `toml` crate reads from the schema
//! text, held in a type of this library.

use vstd::prelude::*;
use crate::error::CompileError;
use crate::text::same_text;

verus! {

/// The value type of the `toml` crate, carried through unread.
#[verifier::external_type_specification]
#[verifier::external_body]
pub struct ExTomlValue(toml::Value);

/// A value of the schema. A table holds its entries in the order in which the
/// schema's reader hands them out.
#[derive(Debug, PartialEq, Eq)]
pub enum SchemaValue {
    /// A string.
    String(String),
    /// An integer.
    Integer(i64),
    /// A floating-point number, which no rule of the schema reads.
    Float,
    /// A boolean.
    Boolean(bool),
    /// A date or time, which no rule of the schema reads.
    Datetime,
    /// An array of values.
    Array(Vec<SchemaValue>),
    /// A table from keys to values.
    Table(Vec<(String, SchemaValue)>),
}

/// The document that the `toml` crate reads from a schema text, as a table
/// value; none where the text is not well-formed.
pub uninterp spec fn toml_document(text: Seq<char>) -> Option<toml::Value>;

/// What a value of the `toml` crate holds, as a value of this library.
pub uninterp spec fn schema_value(value: toml::Value) -> SchemaValue;

/// Parses a schema text with `str::parse::<toml::Table>` and wraps the table
/// in `toml::Value::Table`. The parser reads nothing but the text, so the
/// outcome is the one that `toml_document` stands for.
#[verifier::external_body]
pub(crate) fn parse_toml(text: &str) -> (parsed: Result<toml::Value, toml::de::Error>)
    ensures
        parsed is Ok == toml_document(text@) is Some,
        parsed matches Ok(value) ==> toml_document(text@) == Some(value),
{
    text.parse::<toml::Table>().map(toml::Value::Table)
}

/// Turns a `toml::Value` into a `SchemaValue`, variant by variant: strings,
/// integers and booleans keep their payload, floats and datetimes drop it,
/// arrays keep their elements in order, and tables keep their entries in the
/// order in which `toml::Table` iterates.
#[verifier::external_body]
pub(crate) fn lift_value(value: toml::Value) -> (lifted: SchemaValue)
    ensures
        lifted == schema_value(value),
{
    match value {
        toml::Value::String(s) => SchemaValue::String(s),
        toml::Value::Integer(i) => SchemaValue::Integer(i),
        toml::Value::Float(_) => SchemaValue::Float,
        toml::Value::Boolean(b) => SchemaValue::Boolean(b),
        toml::Value::Datetime(_) => SchemaValue::Datetime,
        toml::Value::Array(a) => SchemaValue::Array(a.into_iter().map(lift_value).collect()),
        toml::Value::Table(t) => SchemaValue::Table(
            t.into_iter().map(|(k, v)| (k, lift_value(v))).collect(),
        ),
    }
}

/// The document that a schema text holds, as a value of this library; none
/// where the text is not well-formed.
pub open spec fn document_of(text: Seq<char>) -> Option<SchemaValue> {
    match toml_document(text) {
        None => None,
        Some(value) => Some(schema_value(value)),
    }
}

/// Reads a schema text into its document. A text that is not well-formed
/// fails with the reader's own error.
pub fn read_schema(text: &str) -> (read: Result<SchemaValue, CompileError>)
    ensures
        match document_of(text@) {
            Some(document) => read == Ok::<SchemaValue, CompileError>(document),
            None => read matches Err(CompileError::Toml(_)),
        },
{
    match parse_toml(text) {
        Err(e) => Err(CompileError::Toml(e)),
        Ok(value) => Ok(lift_value(value)),
    }
}

/// The value of the first entry under a key; none if no entry has the key.
pub open spec fn lookup(entries: Seq<(String, SchemaValue)>, key: Seq<char>) -> Option<
    SchemaValue,
>
    decreases entries.len(),
{
    if entries.len() == 0 {
        None
    } else {
        match lookup(entries.drop_last(), key) {
            Some(value) => Some(value),
            None => if entries.last().0@ == key {
                Some(entries.last().1)
            } else {
                None
            },
        }
    }
}

/// The entries of the table that a document holds under a key. A document
/// that is no table, a missing key and a value that is no table all give no
/// entries.
pub open spec fn section(document: SchemaValue, key: Seq<char>) -> Seq<(String, SchemaValue)> {
    match document.entries() {
        None => Seq::empty(),
        Some(top) => match lookup(top, key) {
            None => Seq::empty(),
            Some(value) => match value.entries() {
                None => Seq::empty(),
                Some(entries) => entries,
            },
        },
    }
}

impl SchemaValue {
    /// The characters of a string value.
    pub open spec fn text(self) -> Option<Seq<char>> {
        match self {
            SchemaValue::String(s) => Some(s@),
            _ => None,
        }
    }

    /// The number of an integer value.
    pub open spec fn integer(self) -> Option<i64> {
        match self {
            SchemaValue::Integer(i) => Some(i),
            _ => None,
        }
    }

    /// The elements of an array value.
    pub open spec fn elements(self) -> Option<Seq<SchemaValue>> {
        match self {
            SchemaValue::Array(items) => Some(items@),
            _ => None,
        }
    }

    /// The entries of a table value.
    pub open spec fn entries(self) -> Option<Seq<(String, SchemaValue)>> {
        match self {
            SchemaValue::Table(entries) => Some(entries@),
            _ => None,
        }
    }

    /// The string, if the value is one.
    pub fn as_str(&self) -> (text: Option<&str>)
        ensures
            text is Some == self.text() is Some,
            text matches Some(s) ==> self.text() == Some(s@),
    {
        match self {
            SchemaValue::String(s) => Some(s.as_str()),
            _ => None,
        }
    }

    /// The integer, if the value is one.
    pub fn as_integer(&self) -> (number: Option<i64>)
        ensures
            number == self.integer(),
    {
        match self {
            SchemaValue::Integer(i) => Some(*i),
            _ => None,
        }
    }

    /// The elements, if the value is an array.
    pub fn as_array(&self) -> (items: Option<&Vec<SchemaValue>>)
        ensures
            items is Some == self.elements() is Some,
            items matches Some(v) ==> self.elements() == Some(v@),
    {
        match self {
            SchemaValue::Array(items) => Some(items),
            _ => None,
        }
    }

    /// The entries, if the value is a table.
    pub fn as_table(&self) -> (entries: Option<&Vec<(String, SchemaValue)>>)
        ensures
            entries is Some == self.entries() is Some,
            entries matches Some(v) ==> self.entries() == Some(v@),
    {
        match self {
            SchemaValue::Table(entries) => Some(entries),
            _ => None,
        }
    }

    /// The value of the first entry of a table under a key.
    pub fn get(&self, key: &str) -> (found: Option<&SchemaValue>)
        ensures
            match self.entries() {
                None => found is None,
                Some(entries) => match lookup(entries, key@) {
                    None => found is None,
                    Some(value) => found == Some(&value),
                },
            },
    {
        match self {
            SchemaValue::Table(entries) => {
                let mut i: usize = 0;
                while i < entries.len()
                    invariant
                        i <= entries.len(),
                        self.entries() == Some(entries@),
                        lookup(entries@.take(i as int), key@) is None,
                    decreases entries.len() - i,
                {
                    assert(entries@.take(i + 1).drop_last() =~= entries@.take(i as int));
                    if same_text(entries[i].0.as_str(), key) {
                        proof {
                            assert(entries@.take(i + 1).last() == entries@[i as int]);
                            assert(lookup(entries@.take(i + 1), key@) == Some(entries@[i as int].1));
                            lemma_lookup_prefix(entries@, key@, i + 1);
                        }
                        return Some(&entries[i].1);
                    }
                    i = i + 1;
                }
                assert(entries@.take(i as int) =~= entries@);
                None
            },
            _ => None,
        }
    }

    /// The entries of the table that a document holds under a key.
    pub fn section_entries(&self, key: &str) -> (found: Option<&Vec<(String, SchemaValue)>>)
        ensures
            match found {
                Some(entries) => entries@ == section(*self, key@),
                None => section(*self, key@) == Seq::<(String, SchemaValue)>::empty(),
            },
    {
        match self.get(key) {
            None => None,
            Some(value) => value.as_table(),
        }
    }
}

/// What the first entries of a table hold under a key, the whole table holds
/// under it too.
pub proof fn lemma_lookup_prefix(entries: Seq<(String, SchemaValue)>, key: Seq<char>, k: int)
    requires
        0 <= k <= entries.len(),
        lookup(entries.take(k), key) is Some,
    ensures
        lookup(entries, key) == lookup(entries.take(k), key),
    decreases entries.len(),
{
    if k == entries.len() {
        assert(entries.take(k) =~= entries);
    } else {
        assert(entries.drop_last().take(k) =~= entries.take(k));
        lemma_lookup_prefix(entries.drop_last(), key, k);
    }
}

} // verus!
