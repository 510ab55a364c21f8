//! The vocabulary of the key-value store behind the registry and the
//! subscriptions: items made of named attributes, and the requests that read
//! and write them.
//!
//! Nothing here talks to a store. A caller sends the [`StoreRequest`] that it
//! is given and hands back the items that came.

use crate::text::same_text;
use vstd::prelude::*;

verus! {

/// The value of an attribute: text, a number in its decimal text, or a value
/// of another kind, of which nothing is read.
#[derive(Debug, Clone, PartialEq, Eq)]
pub enum AttributeValue {
    S(String),
    N(String),
    Other,
}

/// Mathematical model of an [`AttributeValue`].
pub ghost enum AttributeValueModel {
    S(Seq<char>),
    N(Seq<char>),
    Other,
}

impl DeepView for AttributeValue {
    type V = AttributeValueModel;

    open spec fn deep_view(&self) -> AttributeValueModel {
        match self {
            AttributeValue::S(text) => AttributeValueModel::S(text@),
            AttributeValue::N(number) => AttributeValueModel::N(number@),
            AttributeValue::Other => AttributeValueModel::Other,
        }
    }
}

/// A named attribute of an item, of a key, or of a query.
#[derive(Debug, Clone, PartialEq, Eq)]
pub struct Attribute {
    pub name: String,
    pub value: AttributeValue,
}

/// Mathematical model of an [`Attribute`].
pub ghost struct AttributeModel {
    pub name: Seq<char>,
    pub value: AttributeValueModel,
}

impl DeepView for Attribute {
    type V = AttributeModel;

    open spec fn deep_view(&self) -> AttributeModel {
        AttributeModel { name: self.name@, value: self.value.deep_view() }
    }
}

impl AttributeModel {
    /// A text attribute.
    pub open spec fn text(name: Seq<char>, value: Seq<char>) -> AttributeModel {
        AttributeModel { name, value: AttributeValueModel::S(value) }
    }

    /// A number attribute.
    pub open spec fn number(name: Seq<char>, value: Seq<char>) -> AttributeModel {
        AttributeModel { name, value: AttributeValueModel::N(value) }
    }
}

impl Attribute {
    /// A text attribute.
    pub fn text(name: &str, value: &str) -> (attribute: Attribute)
        ensures
            attribute.deep_view() == AttributeModel::text(name@, value@),
    {
        Attribute { name: name.to_owned(), value: AttributeValue::S(value.to_owned()) }
    }

    /// A number attribute.
    pub fn number(name: &str, value: &str) -> (attribute: Attribute)
        ensures
            attribute.deep_view() == AttributeModel::number(name@, value@),
    {
        Attribute { name: name.to_owned(), value: AttributeValue::N(value.to_owned()) }
    }
}

/// The value of the first attribute of that name.
pub open spec fn attribute_named(item: Seq<AttributeModel>, name: Seq<char>) -> Option<
    AttributeValueModel,
>
    decreases item.len(),
{
    if item.len() == 0 {
        None
    } else if item[0].name == name {
        Some(item[0].value)
    } else {
        attribute_named(item.drop_first(), name)
    }
}

/// The text under a name, where the item has text there.
pub open spec fn text_attribute(item: Seq<AttributeModel>, name: Seq<char>) -> Option<Seq<char>> {
    match attribute_named(item, name) {
        Some(AttributeValueModel::S(text)) => Some(text),
        _ => None,
    }
}

/// The number under a name, in its decimal text, where the item has a number
/// there.
pub open spec fn number_attribute(item: Seq<AttributeModel>, name: Seq<char>) -> Option<
    Seq<char>,
> {
    match attribute_named(item, name) {
        Some(AttributeValueModel::N(number)) => Some(number),
        _ => None,
    }
}

/// Finds the value of the first attribute of that name.
pub fn find_attribute<'a>(item: &'a Vec<Attribute>, name: &str) -> (value: Option<
    &'a AttributeValue,
>)
    ensures
        value.deep_view() == attribute_named(item.deep_view(), name@),
{
    let mut i: usize = 0;
    assert(item.deep_view().skip(0) =~= item.deep_view());
    while i < item.len()
        invariant
            i <= item.len(),
            attribute_named(item.deep_view(), name@) == attribute_named(
                item.deep_view().skip(i as int),
                name@,
            ),
        decreases item.len() - i,
    {
        let ghost rest = item.deep_view().skip(i as int);
        assert(rest[0] == item@[i as int].deep_view());
        assert(rest.drop_first() =~= item.deep_view().skip(i + 1));
        if same_text(item[i].name.as_str(), name) {
            return Some(&item[i].value);
        }
        i += 1;
    }
    None
}

/// Reads the text under a name; see [`text_attribute`].
pub fn read_text(item: &Vec<Attribute>, name: &str) -> (text: Option<String>)
    ensures
        text.deep_view() == text_attribute(item.deep_view(), name@),
{
    match find_attribute(item, name) {
        Some(AttributeValue::S(text)) => Some(text.clone()),
        _ => None,
    }
}

/// Reads the number under a name; see [`number_attribute`].
pub fn read_number(item: &Vec<Attribute>, name: &str) -> (number: Option<String>)
    ensures
        number.deep_view() == number_attribute(item.deep_view(), name@),
{
    match find_attribute(item, name) {
        Some(AttributeValue::N(number)) => Some(number.clone()),
        _ => None,
    }
}

/// A request to the store.
#[derive(Debug, Clone, PartialEq, Eq)]
pub enum StoreRequest {
    /// Read the item with the given key.
    GetItem { table_name: String, key: Vec<Attribute> },
    /// Write an item, in place of any item with the same key.
    PutItem { table_name: String, item: Vec<Attribute> },
    /// Read up to `limit` items through an index. The condition names its
    /// values by the placeholders in `values`.
    Query {
        table_name: String,
        index_name: String,
        key_condition: String,
        values: Vec<Attribute>,
        limit: i32,
    },
    /// Change attributes of the item with the given key. The expression names
    /// attributes by the placeholders in `names`, values by those in `values`.
    UpdateItem {
        table_name: String,
        key: Vec<Attribute>,
        update_expression: String,
        names: Vec<(String, String)>,
        values: Vec<Attribute>,
    },
}

/// Mathematical model of a [`StoreRequest`].
pub ghost enum StoreRequestModel {
    GetItem { table_name: Seq<char>, key: Seq<AttributeModel> },
    PutItem { table_name: Seq<char>, item: Seq<AttributeModel> },
    Query {
        table_name: Seq<char>,
        index_name: Seq<char>,
        key_condition: Seq<char>,
        values: Seq<AttributeModel>,
        limit: i32,
    },
    UpdateItem {
        table_name: Seq<char>,
        key: Seq<AttributeModel>,
        update_expression: Seq<char>,
        names: Seq<(Seq<char>, Seq<char>)>,
        values: Seq<AttributeModel>,
    },
}

impl DeepView for StoreRequest {
    type V = StoreRequestModel;

    open spec fn deep_view(&self) -> StoreRequestModel {
        match self {
            StoreRequest::GetItem { table_name, key } => StoreRequestModel::GetItem {
                table_name: table_name@,
                key: key.deep_view(),
            },
            StoreRequest::PutItem { table_name, item } => StoreRequestModel::PutItem {
                table_name: table_name@,
                item: item.deep_view(),
            },
            StoreRequest::Query {
                table_name,
                index_name,
                key_condition,
                values,
                limit,
            } => StoreRequestModel::Query {
                table_name: table_name@,
                index_name: index_name@,
                key_condition: key_condition@,
                values: values.deep_view(),
                limit: *limit,
            },
            StoreRequest::UpdateItem {
                table_name,
                key,
                update_expression,
                names,
                values,
            } => StoreRequestModel::UpdateItem {
                table_name: table_name@,
                key: key.deep_view(),
                update_expression: update_expression@,
                names: names.deep_view(),
                values: values.deep_view(),
            },
        }
    }
}

impl View for StoreRequest {
    type V = StoreRequestModel;

    open spec fn view(&self) -> StoreRequestModel {
        self.deep_view()
    }
}

} // verus!
