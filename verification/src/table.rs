//! The toml crate's tables and values, as far as the history uses them.
//!
//! Nothing in this file is proved. Each item says what it takes from the
//! toml crate, built with its `preserve_order` feature.

use vstd::prelude::*;
use crate::document::{Node, has_key, lookup, put};

verus! {

/// `toml::map::Map`. A `toml::Table` is the one with `String` keys and
/// `toml::Value` values. What is in it is known only by `table_entries`.
#[verifier::external_type_specification]
#[verifier::external_body]
#[verifier::reject_recursive_types(K)]
#[verifier::reject_recursive_types(V)]
pub struct ExMap<K, V>(toml::map::Map<K, V>);

/// `toml::Value`. What is in it is known only by `value_node`.
#[verifier::external_type_specification]
#[verifier::external_body]
pub struct ExValue(toml::Value);

/// `toml::ser::Error`: why the toml crate wrote no text. Nothing is read
/// from it.
#[verifier::external_type_specification]
#[verifier::external_body]
pub struct ExSerError(toml::ser::Error);

/// `toml::de::Error`: why the toml crate read no document. Nothing is read
/// from it.
#[verifier::external_type_specification]
#[verifier::external_body]
pub struct ExDeError(toml::de::Error);

/// What a value holds.
pub uninterp spec fn value_node(v: toml::Value) -> Node;

/// What a table holds: its entries in the order in which they were put.
pub uninterp spec fn table_entries(t: toml::Table) -> Seq<(Seq<char>, Node)>;

/// The text that the toml crate writes for a document with these entries,
/// or `None` where it writes none.
pub uninterp spec fn toml_text(entries: Seq<(Seq<char>, Node)>) -> Option<Seq<char>>;

/// The entries of the document that the toml crate reads from a text, or
/// `None` where the text is no document.
pub uninterp spec fn toml_entries(text: Seq<char>) -> Option<Seq<(Seq<char>, Node)>>;

/// `toml::map::Map::new`. Claimed: the new table is empty.
#[verifier::external_body]
pub(crate) fn new_table() -> (t: toml::Table)
    ensures
        table_entries(t) == Seq::<(Seq<char>, Node)>::empty(),
{
    toml::Table::new()
}

/// `toml::map::Map::insert`. Claimed: the value takes the place of the one
/// that stood under the key, or the last place where none stood there; the
/// other entries stay as they were.
#[verifier::external_body]
pub(crate) fn table_insert(t: &mut toml::Table, key: String, v: toml::Value)
    ensures
        table_entries(*final(t)) == put(table_entries(*old(t)), key@, value_node(v)),
{
    t.insert(key, v);
}

/// `toml::map::Map::get`. Claimed: the value under the key, if the table
/// has the key.
#[verifier::external_body]
pub(crate) fn table_get<'a>(t: &'a toml::Table, key: &str) -> (r: Option<&'a toml::Value>)
    ensures
        r is Some <==> has_key(table_entries(*t), key@),
        r matches Some(v) ==> lookup(table_entries(*t), key@) == Some(value_node(*v)),
{
    t.get(key)
}

/// `toml::Value::from` on a `String`. Claimed: the value is that string.
#[verifier::external_body]
pub(crate) fn text_value(text: String) -> (v: toml::Value)
    ensures
        value_node(v) == Node::Text(text@),
{
    toml::Value::from(text)
}

/// `toml::Value::from` on a table. Claimed: the value is that table.
#[verifier::external_body]
pub(crate) fn table_value(t: toml::Table) -> (v: toml::Value)
    ensures
        value_node(v) == Node::Table(table_entries(t)),
{
    toml::Value::from(t)
}

/// `toml::Value::from` on a `Vec` of values. Claimed: the value is the
/// array of these values, in their order.
#[verifier::external_body]
pub(crate) fn list_value(items: Vec<toml::Value>) -> (v: toml::Value)
    ensures
        value_node(v) == Node::List(items@.map_values(|i: toml::Value| value_node(i))),
{
    toml::Value::from(items)
}

/// `toml::Value::as_str`. Claimed: the string of a value that is one, and
/// `None` for any other value.
pub assume_specification<'a>[ toml::Value::as_str ](v: &'a toml::Value) -> (r: Option<&'a str>)
    ensures
        match r {
            Some(s) => value_node(*v) == Node::Text(s@),
            None => !(value_node(*v) is Text),
        },
;

/// `toml::Value::as_table`. Claimed: the table of a value that is one, and
/// `None` for any other value.
pub assume_specification<'a>[ toml::Value::as_table ](v: &'a toml::Value) -> (r: Option<
    &'a toml::Table,
>)
    ensures
        match r {
            Some(t) => value_node(*v) == Node::Table(table_entries(*t)),
            None => !(value_node(*v) is Table),
        },
;

/// `toml::Value::as_array`. Claimed: the items of a value that is an array,
/// and `None` for any other value.
pub assume_specification<'a>[ toml::Value::as_array ](v: &'a toml::Value) -> (r: Option<
    &'a Vec<toml::Value>,
>)
    ensures
        match r {
            Some(items) => value_node(*v) == Node::List(
                items@.map_values(|i: toml::Value| value_node(i)),
            ),
            None => !(value_node(*v) is List),
        },
;

/// `toml::to_string` on a table. Claimed: where it gives a text, the text
/// is the one named `toml_text`; where it fails, the document has no text.
#[verifier::external_body]
pub(crate) fn write_table(t: &toml::Table) -> (r: Result<String, toml::ser::Error>)
    ensures
        match r {
            Ok(s) => toml_text(table_entries(*t)) == Some(s@),
            Err(_) => toml_text(table_entries(*t)) is None,
        },
{
    toml::to_string(t)
}

/// `toml::from_str` to a table. Claimed: where it gives a table, the
/// table holds the entries named `toml_entries`; where it fails, the text
/// is no document.
#[verifier::external_body]
pub(crate) fn read_table(text: &str) -> (r: Result<toml::Table, toml::de::Error>)
    ensures
        match r {
            Ok(t) => toml_entries(text@) == Some(table_entries(t)),
            Err(_) => toml_entries(text@) is None,
        },
{
    toml::from_str(text)
}

} // verus!
