//! TOML documents as plain values.
//!
//! Parsing is the work of the `toml` crate. What it returns is carried over,
//! one for one, into a [`TomlValue`], which the rest of the library reads.

use vstd::prelude::*;
use crate::error::{EchidnaError, ErrorModel};
use crate::text::{chars_of, same_chars};

verus! {

/// A value of a TOML document.
#[derive(Debug, PartialEq, Eq)]
pub enum TomlValue {
    /// A string.
    Text(String),
    /// An integer.
    Integer(i64),
    /// A float, as the text that denotes it.
    Float(String),
    /// A boolean.
    Boolean(bool),
    /// A date or a time, as the text that denotes it.
    Datetime(String),
    /// An array of values.
    Array(Vec<TomlValue>),
    /// A table: keys with their values. No key stands twice.
    Table(Vec<(String, TomlValue)>),
}

/// The mathematical content of a [`TomlValue`].
pub enum DocModel {
    Text(Seq<char>),
    Integer(int),
    Float(Seq<char>),
    Boolean(bool),
    Datetime(Seq<char>),
    Array(Seq<DocModel>),
    Table(Seq<(Seq<char>, DocModel)>),
}

impl View for TomlValue {
    type V = DocModel;

    open spec fn view(&self) -> DocModel
        decreases self,
    {
        match self {
            TomlValue::Text(s) => DocModel::Text(s@),
            TomlValue::Integer(i) => DocModel::Integer(*i as int),
            TomlValue::Float(s) => DocModel::Float(s@),
            TomlValue::Boolean(b) => DocModel::Boolean(*b),
            TomlValue::Datetime(s) => DocModel::Datetime(s@),
            TomlValue::Array(items) => DocModel::Array(
                Seq::new(
                    items.len() as nat,
                    |i: int|
                        if 0 <= i < items.len() {
                            items[i]@
                        } else {
                            DocModel::Boolean(false)
                        },
                ),
            ),
            TomlValue::Table(entries) => DocModel::Table(
                Seq::new(
                    entries.len() as nat,
                    |i: int|
                        if 0 <= i < entries.len() {
                            (entries[i].0@, entries[i].1@)
                        } else {
                            (Seq::<char>::empty(), DocModel::Boolean(false))
                        },
                ),
            ),
        }
    }
}

/// The models of a sequence of values, in order.
pub open spec fn value_models(items: Seq<TomlValue>) -> Seq<DocModel> {
    Seq::new(items.len(), |i: int| items[i]@)
}

/// The models of the entries of a table, in order.
pub open spec fn entry_models(entries: Seq<(String, TomlValue)>) -> Seq<(Seq<char>, DocModel)> {
    Seq::new(entries.len(), |i: int| (entries[i].0@, entries[i].1@))
}

/// The value that the first entry with the given key holds.
pub open spec fn lookup(entries: Seq<(Seq<char>, DocModel)>, key: Seq<char>) -> Option<DocModel>
    decreases entries.len(),
{
    if entries.len() == 0 {
        None
    } else if entries[0].0 == key {
        Some(entries[0].1)
    } else {
        lookup(entries.drop_first(), key)
    }
}

impl DocModel {
    /// The value under `key`, if this is a table that has the key.
    pub open spec fn entry(self, key: Seq<char>) -> Option<DocModel> {
        match self {
            DocModel::Table(entries) => lookup(entries, key),
            _ => None,
        }
    }

    /// The text of this value, if it is a string.
    pub open spec fn text(self) -> Option<Seq<char>> {
        match self {
            DocModel::Text(s) => Some(s),
            _ => None,
        }
    }

    /// The items of this value, if it is an array.
    pub open spec fn items(self) -> Option<Seq<DocModel>> {
        match self {
            DocModel::Array(items) => Some(items),
            _ => None,
        }
    }

    /// Whether this value is a table.
    pub open spec fn is_table(self) -> bool {
        self is Table
    }

    /// Whether this value is an array.
    pub open spec fn is_array(self) -> bool {
        self is Array
    }
}

impl TomlValue {
    /// The value under `key`, if this is a table that has the key.
    pub fn get(&self, key: &str) -> (value: Option<&TomlValue>)
        ensures
            match value {
                Some(v) => self@.entry(key@) == Some(v@),
                None => self@.entry(key@).is_none(),
            },
    {
        match self {
            TomlValue::Table(entries) => {
                let wanted = chars_of(key);
                let ghost all = entry_models(entries@);
                assert(self@ == DocModel::Table(all)) by {
                    assert(self@->Table_0 =~= all);
                }
                let mut i: usize = 0;
                assert(all.skip(0) =~= all);
                while i < entries.len()
                    invariant
                        i <= entries.len(),
                        wanted@ == key@,
                        all == entry_models(entries@),
                        self@.entry(key@) == lookup(all, key@),
                        lookup(all, key@) == lookup(all.skip(i as int), key@),
                    decreases entries.len() - i,
                {
                    let name = chars_of(entries[i].0.as_str());
                    assert(all.skip(i as int).len() > 0);
                    assert(all.skip(i as int)[0] == all[i as int]);
                    if same_chars(&name, &wanted) {
                        assert(lookup(all.skip(i as int), key@) == Some(entries@[i as int].1@));
                        return Some(&entries[i].1);
                    }
                    assert(all.skip(i as int).drop_first() =~= all.skip(i + 1));
                    i += 1;
                }
                None
            },
            _ => None,
        }
    }

    /// The text of this value, if it is a string.
    pub fn as_str(&self) -> (text: Option<&str>)
        ensures
            match text {
                Some(s) => self@.text() == Some(s@),
                None => self@.text().is_none(),
            },
    {
        match self {
            TomlValue::Text(s) => Some(s.as_str()),
            _ => None,
        }
    }

    /// The items of this value, if it is an array.
    pub fn as_array(&self) -> (items: Option<&Vec<TomlValue>>)
        ensures
            match items {
                Some(v) => self@.items() == Some(value_models(v@)),
                None => self@.items().is_none(),
            },
    {
        match self {
            TomlValue::Array(items) => {
                assert(self@->Array_0 =~= value_models(items@));
                Some(items)
            },
            _ => None,
        }
    }

    /// Whether this value is a table or an array.
    pub fn is_collection(&self) -> (b: bool)
        ensures
            b == (self@.is_table() || self@.is_array()),
    {
        match self {
            TomlValue::Table(_) => true,
            TomlValue::Array(_) => true,
            _ => false,
        }
    }
}

/// The value of a TOML document of the `toml` crate.
#[verifier::external_type_specification]
#[verifier::external_body]
pub struct ExTomlValue(toml::Value);

/// What a text denotes as a TOML document: the document, or the message of
/// the parse error if it is none.
pub uninterp spec fn parsed_document(content: Seq<char>) -> Result<DocModel, Seq<char>>;

/// Carries a `toml::Value` over, variant by variant. Floats and dates are
/// kept as the text that `to_string` gives for them.
#[verifier::external_body]
fn lift(value: toml::Value) -> TomlValue {
    match value {
        toml::Value::String(s) => TomlValue::Text(s),
        toml::Value::Integer(i) => TomlValue::Integer(i),
        toml::Value::Float(f) => TomlValue::Float(f.to_string()),
        toml::Value::Boolean(b) => TomlValue::Boolean(b),
        toml::Value::Datetime(d) => TomlValue::Datetime(d.to_string()),
        toml::Value::Array(a) => TomlValue::Array(a.into_iter().map(lift).collect()),
        toml::Value::Table(t) => TomlValue::Table(
            t.into_iter().map(|(k, v)| (k, lift(v))).collect(),
        ),
    }
}

/// `toml::from_str` reads a text as a TOML document. The result depends on
/// the text alone: the document, or the error, of which the message is kept
/// as its `Display` writes it.
#[verifier::external_body]
pub(crate) fn parse_toml(content: &str) -> (r: Result<TomlValue, String>)
    ensures
        match r {
            Ok(doc) => parsed_document(content@) == Ok::<DocModel, Seq<char>>(doc@),
            Err(message) => parsed_document(content@) == Err::<DocModel, Seq<char>>(message@),
        },
{
    toml::from_str::<toml::Value>(content).map(lift).map_err(|e| e.to_string())
}

/// What reading a text as a TOML document gives, with the failure as an
/// error of this library.
pub open spec fn document_outcome(content: Seq<char>) -> Result<DocModel, ErrorModel> {
    match parsed_document(content) {
        Ok(doc) => Ok(doc),
        Err(message) => Err(ErrorModel::TomlParse(message)),
    }
}

/// Reads a text as a TOML document.
pub fn parse_document(content: &str) -> (r: Result<TomlValue, EchidnaError>)
    ensures
        match r {
            Ok(doc) => document_outcome(content@) == Ok::<DocModel, ErrorModel>(doc@),
            Err(e) => document_outcome(content@) == Err::<DocModel, ErrorModel>(e@),
        },
{
    match parse_toml(content) {
        Ok(doc) => Ok(doc),
        Err(message) => Err(EchidnaError::TomlParse(message)),
    }
}

} // verus!
