//! The boundary to the TOML parser.
//!
//! The manifest text is handed to the `toml` crate, which turns it into
//! a generic structured document (`toml::Table` / `toml::Value`). Those
//! types are opaque here, so their contents are named: `toml_doc` is
//! the document a text parses to (parsing is deterministic, so the
//! result is a function of the text alone), and `value_model` /
//! `table_model` are what an opaque value or table holds, as a
//! `DocNode` tree of plain values. Each operation the schema
//! extraction needs is a small trusted wrapper around one library
//! call, with its contract stated over those names; everything that
//! reads the extracted plain values is verified.

use vstd::prelude::*;

verus! {

/// The shape of one node of the generic structured document: a string,
/// a boolean, an array, a key-to-value table (in the table's own
/// enumeration order), or any other kind of value (a number, a
/// datetime), which the manifest schema never reads further.
pub enum DocNode {
    TextNode(Seq<char>),
    FlagNode(bool),
    ListNode(Seq<DocNode>),
    TableNode(Seq<(Seq<char>, DocNode)>),
    OtherNode,
}

/// True when no two entries of a table share a key; TOML tables are
/// maps, so every table that comes out of the parser satisfies this.
pub open spec fn distinct_keys(entries: Seq<(Seq<char>, DocNode)>) -> bool {
    forall|i: int, j: int| 0 <= i < j < entries.len() ==> entries[i].0 != entries[j].0
}

/// The value under a key in a table's entry list, if any.
pub open spec fn lookup(entries: Seq<(Seq<char>, DocNode)>, key: Seq<char>) -> Option<DocNode>
    decreases entries.len(),
{
    if entries.len() == 0 {
        None
    } else if entries[0].0 == key {
        Some(entries[0].1)
    } else {
        lookup(entries.subrange(1, entries.len() as int), key)
    }
}

/// The document a text parses to: the top-level table's entries, or
/// nothing when the text is not well-formed TOML. Parsing is
/// deterministic, so this is a function of the text alone.
pub uninterp spec fn toml_doc(text: Seq<char>) -> Option<Seq<(Seq<char>, DocNode)>>;

/// What an opaque `toml::Value` holds.
pub uninterp spec fn value_model(v: toml::Value) -> DocNode;

/// What an opaque `toml::Table` holds: its entries, in the table's own
/// enumeration order.
pub uninterp spec fn table_model(t: toml::map::Map<String, toml::Value>) -> Seq<
    (Seq<char>, DocNode),
>;

/// `toml::Value`, the generic structured document node, held opaquely.
#[verifier::external_type_specification]
#[verifier::external_body]
pub struct ExTomlValue(toml::Value);

/// `toml::map::Map`, the key-to-value table behind `toml::Table`,
/// held opaquely.
#[verifier::external_type_specification]
#[verifier::external_body]
#[verifier::reject_recursive_types(K)]
#[verifier::reject_recursive_types(V)]
pub struct ExTomlMap<K, V>(toml::map::Map<K, V>);

/// `toml::de::Error`, the parser's error, held opaquely.
#[verifier::external_type_specification]
#[verifier::external_body]
pub struct ExTomlDeError(toml::de::Error);

/// Relies on `toml::from_str::<toml::Table>`: parses the text as a
/// TOML document and returns its top-level table (whose contents are
/// the document named `toml_doc`, with unique keys), or the parse
/// error when the text is not well-formed TOML.
#[verifier::external_body]
pub(crate) fn toml_parse(text: &str) -> (r: Result<toml::Table, toml::de::Error>)
    ensures
        match r {
            Result::Ok(t) => toml_doc(text@) == Some(table_model(t)) && distinct_keys(
                table_model(t),
            ),
            Result::Err(_) => toml_doc(text@) is None,
        },
{
    toml::from_str::<toml::Table>(text)
}

/// Relies on the `Display` impl of `toml::de::Error`: renders the
/// parse error as text for diagnostics.
#[verifier::external_body]
pub(crate) fn toml_error_text(e: &toml::de::Error) -> (r: String) {
    format!("{}", e)
}

/// Relies on `toml::map::Map::get`: looks the key up and hands back a
/// clone of the value under it, if any.
#[verifier::external_body]
pub(crate) fn table_get(t: &toml::Table, key: &str) -> (r: Option<toml::Value>)
    ensures
        match r {
            Option::Some(v) => lookup(table_model(*t), key@) == Some(value_model(v)),
            Option::None => lookup(table_model(*t), key@) is None,
        },
{
    t.get(key).cloned()
}

/// Relies on `toml::map::Map::iter`: hands out every entry of the
/// table as an owned pair, in the table's own order (lexicographic by
/// key for this build of the crate). Map keys are unique.
#[verifier::external_body]
pub(crate) fn table_entries(t: &toml::Table) -> (r: Vec<(String, toml::Value)>)
    ensures
        r@.len() == table_model(*t).len(),
        forall|i: int|
            0 <= i < r@.len() ==> (#[trigger] r@[i]).0@ == table_model(*t)[i].0 && value_model(
                r@[i].1,
            ) == table_model(*t)[i].1,
        forall|i: int, j: int| 0 <= i < j < r@.len() ==> r@[i].0@ != r@[j].0@,
{
    t.iter().map(|(k, v)| (k.clone(), v.clone())).collect()
}

/// Relies on `toml::Value::as_str`: hands a copy of the payload out
/// exactly when the value is a TOML string.
#[verifier::external_body]
pub(crate) fn value_as_string(v: &toml::Value) -> (r: Option<String>)
    ensures
        match r {
            Option::Some(s) => value_model(*v) == DocNode::TextNode(s@),
            Option::None => !(value_model(*v) is TextNode),
        },
{
    v.as_str().map(|s| s.to_owned())
}

/// Relies on `toml::Value::as_bool`: hands the payload out exactly
/// when the value is a TOML boolean.
#[verifier::external_body]
pub(crate) fn value_as_bool(v: &toml::Value) -> (r: Option<bool>)
    ensures
        match r {
            Option::Some(b) => value_model(*v) == DocNode::FlagNode(b),
            Option::None => !(value_model(*v) is FlagNode),
        },
{
    v.as_bool()
}

/// Relies on the variants of `toml::Value`: hands the payload out
/// exactly when the value is a TOML table; a TOML table is a map, so
/// its keys are unique.
#[verifier::external_body]
pub(crate) fn value_as_table(v: toml::Value) -> (r: Option<toml::Table>)
    ensures
        match r {
            Option::Some(t) => value_model(v) == DocNode::TableNode(table_model(t))
                && distinct_keys(table_model(t)),
            Option::None => !(value_model(v) is TableNode),
        },
{
    match v {
        toml::Value::Table(t) => Some(t),
        _ => None,
    }
}

/// Relies on the variants of `toml::Value`: hands the payload out
/// exactly when the value is a TOML array.
#[verifier::external_body]
pub(crate) fn value_as_array(v: toml::Value) -> (r: Option<Vec<toml::Value>>)
    ensures
        match r {
            Option::Some(vals) => value_model(v) == DocNode::ListNode(
                vals@.map_values(|e: toml::Value| value_model(e)),
            ),
            Option::None => !(value_model(v) is ListNode),
        },
{
    match v {
        toml::Value::Array(a) => Some(a),
        _ => None,
    }
}

} // verus!
