//! JSON documents, read through `serde_json`.
//!
//! A parsed document stays a `serde_json::Value`. What the rest of the crate
//! knows of such a value is its mathematical model, a [`Json`] tree, and the
//! functions below are the only places where a value is looked into.

use vstd::prelude::*;

verus! {

/// Mathematical model of a JSON value.
///
/// Numbers that are not integers in `0..=u64::MAX` are all modelled by
/// `OtherNumber`: nothing in this crate reads them. The fields of an object
/// are listed in the order in which the value hands them out.
pub ghost enum Json {
    Null,
    Bool(bool),
    Natural(u64),
    OtherNumber,
    Text(Seq<char>),
    Array(Seq<Json>),
    Object(Seq<(Seq<char>, Json)>),
}

impl Json {
    /// The value stored under `key` when `self` is an object that has that key.
    pub open spec fn member(self, key: Seq<char>) -> Option<Json> {
        match self {
            Json::Object(fields) => first_with_key(fields, key),
            _ => None,
        }
    }

    /// The text of a JSON string.
    pub open spec fn text(self) -> Option<Seq<char>> {
        match self {
            Json::Text(s) => Some(s),
            _ => None,
        }
    }

    /// The value of a non-negative integer that fits 64 bits.
    pub open spec fn natural(self) -> Option<u64> {
        match self {
            Json::Natural(n) => Some(n),
            _ => None,
        }
    }

    /// The elements of a JSON array.
    pub open spec fn elements(self) -> Option<Seq<Json>> {
        match self {
            Json::Array(items) => Some(items),
            _ => None,
        }
    }

    /// The fields of a JSON object.
    pub open spec fn fields(self) -> Option<Seq<(Seq<char>, Json)>> {
        match self {
            Json::Object(fields) => Some(fields),
            _ => None,
        }
    }
}

/// The value of the first field named `key`, if there is one.
pub open spec fn first_with_key(fields: Seq<(Seq<char>, Json)>, key: Seq<char>) -> Option<Json>
    decreases fields.len(),
{
    if fields.len() == 0 {
        None
    } else if fields[0].0 == key {
        Some(fields[0].1)
    } else {
        first_with_key(fields.drop_first(), key)
    }
}

/// A JSON document that this crate wrote: the executable form of the part
/// of [`Json`] that replies are made of. The fields of an object are written
/// in the order in which they are listed.
#[derive(Debug, PartialEq, Eq)]
pub enum Document {
    Null,
    Bool(bool),
    Natural(u64),
    Text(String),
    Array(Vec<Document>),
    Object(Vec<(String, Document)>),
}

/// The model of a document and, recursively, of the documents in it.
pub open spec fn document_model(document: Document) -> Json
    decreases document,
{
    match document {
        Document::Null => Json::Null,
        Document::Bool(b) => Json::Bool(b),
        Document::Natural(n) => Json::Natural(n),
        Document::Text(text) => Json::Text(text@),
        Document::Array(items) => Json::Array(
            Seq::new(
                items@.len(),
                |i: int|
                    if 0 <= i < items@.len() {
                        document_model(items@[i])
                    } else {
                        arbitrary()
                    },
            ),
        ),
        Document::Object(fields) => Json::Object(
            Seq::new(
                fields@.len(),
                |i: int|
                    if 0 <= i < fields@.len() {
                        (fields@[i].0@, document_model(fields@[i].1))
                    } else {
                        arbitrary()
                    },
            ),
        ),
    }
}

impl DeepView for Document {
    type V = Json;

    open spec fn deep_view(&self) -> Json {
        document_model(*self)
    }
}

impl View for Document {
    type V = Json;

    open spec fn view(&self) -> Json {
        document_model(*self)
    }
}

impl Document {
    /// A JSON string.
    pub fn text(text: &str) -> (document: Document)
        ensures
            document@ == Json::Text(text@),
    {
        Document::Text(text.to_owned())
    }

    /// A JSON array of the given documents.
    pub fn array(items: Vec<Document>) -> (document: Document)
        ensures
            document@ == Json::Array(items.deep_view()),
    {
        let document = Document::Array(items);
        assert(document@->Array_0 =~= items.deep_view());
        document
    }

    /// A JSON object with the given fields, in their order.
    pub fn object(fields: Vec<(String, Document)>) -> (document: Document)
        ensures
            document@ == Json::Object(fields.deep_view()),
    {
        let document = Document::Object(fields);
        assert(document@->Object_0 =~= fields.deep_view());
        document
    }
}

/// `serde_json::Value`, a parsed JSON value. It is carried through as it is;
/// what it holds is known only through [`json_of`].
#[verifier::external_type_specification]
#[verifier::external_body]
pub struct ExJsonValue(serde_json::Value);

/// What a `serde_json::Value` holds.
pub uninterp spec fn json_of(value: serde_json::Value) -> Json;

/// The document that `serde_json::from_str` reads from a text, `None` where it
/// reports an error.
pub uninterp spec fn parsed_json(text: Seq<char>) -> Option<Json>;

/// Parses a JSON text with `serde_json::from_str`. The outcome is a function
/// of the text alone; it is named by [`parsed_json`] and not described further.
#[verifier::external_body]
pub(crate) fn parse(text: &str) -> (r: Option<serde_json::Value>)
    ensures
        match r {
            Some(value) => parsed_json(text@) == Some(json_of(value)),
            None => parsed_json(text@) is None,
        },
{
    match serde_json::from_str::<serde_json::Value>(text) {
        Ok(value) => Some(value),
        Err(_) => None,
    }
}

/// Looks a key up with `serde_json::Value::get`: the field's value when the
/// value is an object that has the key, `None` otherwise.
#[verifier::external_body]
pub(crate) fn member<'a>(value: &'a serde_json::Value, key: &str) -> (r: Option<
    &'a serde_json::Value,
>)
    ensures
        match r {
            Some(found) => json_of(*value).member(key@) == Some(json_of(*found)),
            None => json_of(*value).member(key@) is None,
        },
{
    value.get(key)
}

/// `serde_json::Value::as_str` returns the text of a JSON string and `None`
/// for every other value.
pub assume_specification<'a>[ serde_json::Value::as_str ](value: &'a serde_json::Value) -> (r:
    Option<&'a str>)
    ensures
        match r {
            Some(s) => json_of(*value).text() == Some(s@),
            None => json_of(*value).text() is None,
        },
;

/// `serde_json::Value::as_u64` returns the number when the value is a
/// non-negative integer that fits 64 bits, and `None` otherwise.
pub assume_specification[ serde_json::Value::as_u64 ](value: &serde_json::Value) -> (r: Option<
    u64,
>)
    ensures
        r == json_of(*value).natural(),
;

/// `serde_json::Value::is_null` tells whether the value is JSON `null`.
pub assume_specification[ serde_json::Value::is_null ](value: &serde_json::Value) -> (r: bool)
    ensures
        r == (json_of(*value) is Null),
;

/// `serde_json::Value::as_array` hands out the elements of a JSON array and
/// `None` for every other value.
pub assume_specification<'a>[ serde_json::Value::as_array ](value: &'a serde_json::Value) -> (r:
    Option<&'a Vec<serde_json::Value>>)
    ensures
        match r {
            Some(items) => json_of(*value).elements() == Some(models_of(items@)),
            None => json_of(*value).elements() is None,
        },
;

/// The models of a sequence of values, element by element.
pub open spec fn models_of(values: Seq<serde_json::Value>) -> Seq<Json> {
    Seq::new(values.len(), |i: int| json_of(values[i]))
}

/// The models of the fields that an object handed out.
pub open spec fn field_models_of(entries: Seq<(&String, &serde_json::Value)>) -> Seq<
    (Seq<char>, Json),
> {
    Seq::new(entries.len(), |i: int| (entries[i].0@, json_of(*entries[i].1)))
}

/// Whether no two fields have the same name.
pub open spec fn distinct_names(fields: Seq<(Seq<char>, Json)>) -> bool {
    forall|i: int, j: int| 0 <= i < j < fields.len() ==> fields[i].0 != fields[j].0
}

/// Lists the fields of a JSON object in the order of `serde_json::Map::iter`,
/// reached through `serde_json::Value::as_object`; `None` for every other
/// value. The object is a map, which keeps one value under each name, so no
/// name is listed twice.
#[verifier::external_body]
pub(crate) fn fields<'a>(value: &'a serde_json::Value) -> (r: Option<
    Vec<(&'a String, &'a serde_json::Value)>,
>)
    ensures
        match r {
            Some(entries) => json_of(*value).fields() == Some(field_models_of(entries@))
                && distinct_names(field_models_of(entries@)),
            None => json_of(*value).fields() is None,
        },
{
    match value.as_object() {
        Some(object) => Some(object.iter().collect()),
        None => None,
    }
}

} // verus!
