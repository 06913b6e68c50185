//! The text of a TOML document and the tree it holds: `toml` parses and
//! prints, the tree is converted one value for one value.

use vstd::prelude::*;

use crate::config::table::{value_wf, ConfigEntry, ConfigValue};
use toml::Value;

verus! {

/// `toml::Value`, the tree `toml` parses into and prints from.
#[verifier::external_type_specification]
#[verifier::external_body]
pub struct ExTomlValue(toml::Value);

/// The tree of the TOML document `text`, when it is one.
pub uninterp spec fn parsed_toml(text: Seq<char>) -> Option<ConfigValue>;

/// The pretty-printed TOML text of the tree `v`, when it has one.
pub uninterp spec fn printed_toml(v: ConfigValue) -> Option<Seq<char>>;

/// The tree of a parsed value, one value for one value: a float becomes its
/// decimal text, a date-time its TOML text, a table its entries in key order.
#[verifier::external_body]
fn tree_of(v: &Value) -> ConfigValue {
    match v {
        Value::String(s) => ConfigValue::Text(s.clone()),
        Value::Integer(i) => ConfigValue::Integer(*i),
        Value::Float(f) => ConfigValue::Float(f.to_string()),
        Value::Boolean(b) => ConfigValue::Boolean(*b),
        Value::Datetime(d) => ConfigValue::Datetime(d.to_string()),
        Value::Array(xs) => ConfigValue::Array(xs.iter().map(tree_of).collect()),
        Value::Table(m) => ConfigValue::Table(
            m.iter().map(|(k, v)| ConfigEntry { key: k.clone(), value: tree_of(v) }).collect(),
        ),
    }
}

/// The value of a tree, one value for one value; `None` when a float or a
/// date-time text does not read back.
#[verifier::external_body]
fn value_of(v: &ConfigValue) -> Option<Value> {
    Some(match v {
        ConfigValue::Text(s) => Value::String(s.clone()),
        ConfigValue::Integer(i) => Value::Integer(*i),
        ConfigValue::Float(t) => Value::Float(t.parse().ok()?),
        ConfigValue::Boolean(b) => Value::Boolean(*b),
        ConfigValue::Datetime(d) => Value::Datetime(d.parse().ok()?),
        ConfigValue::Array(xs) => Value::Array(xs.iter().map(value_of).collect::<Option<_>>()?),
        ConfigValue::Table(es) => Value::Table(
            es.iter().map(|e| Some((e.key.clone(), value_of(&e.value)?))).collect::<Option<_>>()?,
        ),
    })
}

/// `toml::from_str::<toml::Value>`: parses a TOML document. The result is a
/// function of the text alone, named [`parsed_toml`]; its tables
/// (`toml::map::Map`) never repeat a key. The root is usually a table, but
/// not always: a document whose first key is `toml_datetime`'s private
/// date-time field reads as a date-time. On failure
/// the parser's message is returned.
#[verifier::external_body]
pub fn parse_toml(text: &str) -> (r: Result<ConfigValue, String>)
    ensures
        r is Ok <==> parsed_toml(text@) is Some,
        r matches Ok(v) ==> Some(v) == parsed_toml(text@) && value_wf(v),
{
    toml::from_str::<toml::Value>(text).map(|v| tree_of(&v)).map_err(|e| e.to_string())
}

/// `toml::to_string_pretty`: prints a tree as a TOML document. The result is
/// a function of the tree alone, named [`printed_toml`]. On failure the
/// printer's message is returned.
#[verifier::external_body]
pub fn print_toml(v: &ConfigValue) -> (r: Result<String, String>)
    ensures
        r is Ok <==> printed_toml(*v) is Some,
        r matches Ok(s) ==> Some(s@) == printed_toml(*v),
{
    let value = value_of(v).ok_or_else(|| "a float or date-time does not read back".to_owned())?;
    toml::to_string_pretty(&value).map_err(|e| e.to_string())
}

} // verus!
