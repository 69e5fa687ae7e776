use vstd::prelude::*;

use crate::error::ConvError;
use crate::format::Format;
use crate::value::{toml_representable, Doc};
use serde_json::Value as Json;
use serde_yaml::Value as Yaml;
use toml::Value as Toml;

verus! {

// The outside value trees that the trusted converters walk. They never stand
// in a verified signature except inside the converters below.
#[verifier::external_type_specification]
#[verifier::external_body]
pub struct ExJsonValue(serde_json::Value);

#[verifier::external_type_specification]
#[verifier::external_body]
pub struct ExYamlValue(serde_yaml::Value);

#[verifier::external_type_specification]
#[verifier::external_body]
pub struct ExTomlValue(toml::Value);

/// What parsing JSON text yields: the neutral value, or nothing on any
/// syntactic violation or on a construct the neutral tree cannot hold.
pub uninterp spec fn json_parsed(s: Seq<char>) -> Option<Doc>;

/// What parsing YAML text yields, under the same convention as `json_parsed`.
pub uninterp spec fn yaml_parsed(s: Seq<char>) -> Option<Doc>;

/// What parsing TOML text yields, under the same convention as `json_parsed`.
pub uninterp spec fn toml_parsed(s: Seq<char>) -> Option<Doc>;

/// What rendering a value as pretty JSON yields, or nothing where the JSON
/// writer refuses the value.
pub uninterp spec fn json_rendered(v: Doc) -> Option<Seq<char>>;

/// What rendering a value as YAML yields, or nothing where the YAML writer
/// refuses the value.
pub uninterp spec fn yaml_rendered(v: Doc) -> Option<Seq<char>>;

/// What rendering a value as TOML yields, or nothing where the value lies
/// outside TOML's data model.
pub uninterp spec fn toml_rendered(v: Doc) -> Option<Seq<char>>;

/// Relies on serde_json::Value: maps each variant of the parsed tree onto the
/// neutral value, one arm per variant; numbers outside i64 yield None.
#[verifier::external_body]
fn value_from_json(j: &Json) -> Option<Doc> {
    match j {
        Json::Null => Some(Doc::Null),
        Json::Bool(b) => Some(Doc::Bool(*b)),
        Json::Number(n) => n.as_i64().map(Doc::Int),
        Json::String(s) => Some(Doc::Str(s.clone())),
        Json::Array(a) => a.iter().map(value_from_json).collect::<Option<Vec<_>>>().map(Doc::Array),
        Json::Object(m) => m.iter().map(|(k, x)| Some((k.clone(), value_from_json(x)?))).collect::<Option<Vec<_>>>().map(Doc::Table),
    }
}

/// Relies on serde_yaml::Value: maps each variant onto the neutral value, one
/// arm per variant; non-i64 numbers, non-string keys and tags yield None.
#[verifier::external_body]
fn value_from_yaml(y: &Yaml) -> Option<Doc> {
    match y {
        Yaml::Null => Some(Doc::Null),
        Yaml::Bool(b) => Some(Doc::Bool(*b)),
        Yaml::Number(n) => n.as_i64().map(Doc::Int),
        Yaml::String(s) => Some(Doc::Str(s.clone())),
        Yaml::Sequence(a) => a.iter().map(value_from_yaml).collect::<Option<Vec<_>>>().map(Doc::Array),
        Yaml::Mapping(m) => m.iter().map(|(k, x)| Some((k.as_str()?.to_string(), value_from_yaml(x)?))).collect::<Option<Vec<_>>>().map(Doc::Table),
        Yaml::Tagged(_) => None,
    }
}

/// Relies on toml::Value: maps each variant onto the neutral value, one arm
/// per variant; floats and datetimes yield None.
#[verifier::external_body]
fn value_from_toml(t: &Toml) -> Option<Doc> {
    match t {
        Toml::String(s) => Some(Doc::Str(s.clone())),
        Toml::Integer(i) => Some(Doc::Int(*i)),
        Toml::Float(_) => None,
        Toml::Boolean(b) => Some(Doc::Bool(*b)),
        Toml::Datetime(_) => None,
        Toml::Array(a) => a.iter().map(value_from_toml).collect::<Option<Vec<_>>>().map(Doc::Array),
        Toml::Table(m) => m.iter().map(|(k, x)| Some((k.clone(), value_from_toml(x)?))).collect::<Option<Vec<_>>>().map(Doc::Table),
    }
}

/// Relies on serde_json::Value: rebuilds the outside tree from the neutral
/// value, one arm per variant.
#[verifier::external_body]
fn value_to_json(v: &Doc) -> Json {
    match v {
        Doc::Null => Json::Null,
        Doc::Bool(b) => Json::Bool(*b),
        Doc::Int(i) => Json::Number(serde_json::Number::from(*i)),
        Doc::Str(s) => Json::String(s.clone()),
        Doc::Array(a) => Json::Array(a.iter().map(value_to_json).collect()),
        Doc::Table(t) => Json::Object(t.iter().map(|(k, x)| (k.clone(), value_to_json(x))).collect()),
    }
}

/// Relies on serde_yaml::Value: rebuilds the outside tree from the neutral
/// value, one arm per variant.
#[verifier::external_body]
fn value_to_yaml(v: &Doc) -> Yaml {
    match v {
        Doc::Null => Yaml::Null,
        Doc::Bool(b) => Yaml::Bool(*b),
        Doc::Int(i) => Yaml::Number(serde_yaml::Number::from(*i)),
        Doc::Str(s) => Yaml::String(s.clone()),
        Doc::Array(a) => Yaml::Sequence(a.iter().map(value_to_yaml).collect()),
        Doc::Table(t) => Yaml::Mapping(t.iter().map(|(k, x)| (Yaml::String(k.clone()), value_to_yaml(x))).collect()),
    }
}

/// Relies on toml::Value: rebuilds the outside tree from the neutral value,
/// one arm per variant; a null anywhere yields None, TOML having no null.
#[verifier::external_body]
fn value_to_toml(v: &Doc) -> Option<Toml> {
    match v {
        Doc::Null => None,
        Doc::Bool(b) => Some(Toml::Boolean(*b)),
        Doc::Int(i) => Some(Toml::Integer(*i)),
        Doc::Str(s) => Some(Toml::String(s.clone())),
        Doc::Array(a) => a.iter().map(value_to_toml).collect::<Option<Vec<toml::Value>>>().map(Toml::Array),
        Doc::Table(t) => t.iter().map(|(k, x)| Some((k.clone(), value_to_toml(x)?))).collect::<Option<toml::map::Map<String, toml::Value>>>().map(Toml::Table),
    }
}

/// Relies on serde_json::from_str: parses one JSON document, deterministically
/// in the text alone; the outcome is named `json_parsed`.
#[verifier::external_body]
fn json_parse_raw(text: &str) -> (r: Result<Doc, String>)
    ensures
        r matches Ok(v) ==> json_parsed(text@) == Some(v),
        r is Err <==> json_parsed(text@) is None,
{
    match serde_json::from_str::<serde_json::Value>(text) {
        Ok(j) => value_from_json(&j).ok_or_else(|| String::from("value not representable in the neutral tree")),
        Err(e) => Err(e.to_string()),
    }
}

/// Relies on serde_yaml::from_str: parses one YAML document, deterministically
/// in the text alone; the outcome is named `yaml_parsed`.
#[verifier::external_body]
fn yaml_parse_raw(text: &str) -> (r: Result<Doc, String>)
    ensures
        r matches Ok(v) ==> yaml_parsed(text@) == Some(v),
        r is Err <==> yaml_parsed(text@) is None,
{
    match serde_yaml::from_str::<serde_yaml::Value>(text) {
        Ok(y) => value_from_yaml(&y).ok_or_else(|| String::from("value not representable in the neutral tree")),
        Err(e) => Err(e.to_string()),
    }
}

/// Relies on toml::from_str: parses one TOML document, deterministically in
/// the text alone; the outcome is named `toml_parsed`.
#[verifier::external_body]
fn toml_parse_raw(text: &str) -> (r: Result<Doc, String>)
    ensures
        r matches Ok(v) ==> toml_parsed(text@) == Some(v),
        r is Err <==> toml_parsed(text@) is None,
{
    match toml::from_str::<toml::Value>(text) {
        Ok(t) => value_from_toml(&t).ok_or_else(|| String::from("value not representable in the neutral tree")),
        Err(e) => Err(e.to_string()),
    }
}

/// Relies on serde_json::to_string_pretty: renders the value as indented
/// JSON, deterministically in the value alone; the outcome is named
/// `json_rendered`.
#[verifier::external_body]
fn json_emit_raw(v: &Doc) -> (r: Result<String, String>)
    ensures
        r matches Ok(s) ==> json_rendered(*v) == Some(s@),
        r is Err <==> json_rendered(*v) is None,
{
    serde_json::to_string_pretty(&value_to_json(v)).map_err(|e| e.to_string())
}

/// Relies on serde_yaml::to_string: renders the value as YAML,
/// deterministically in the value alone; the outcome is named
/// `yaml_rendered`.
#[verifier::external_body]
fn yaml_emit_raw(v: &Doc) -> (r: Result<String, String>)
    ensures
        r matches Ok(s) ==> yaml_rendered(*v) == Some(s@),
        r is Err <==> yaml_rendered(*v) is None,
{
    serde_yaml::to_string(&value_to_yaml(v)).map_err(|e| e.to_string())
}

/// Relies on toml::to_string: renders the value as TOML, deterministically in
/// the value alone; the outcome is named `toml_rendered`. A null anywhere is
/// refused by the conversion above, and toml::to_string refuses a root that
/// is not a table, so a value outside TOML's model never renders.
#[verifier::external_body]
fn toml_emit_raw(v: &Doc) -> (r: Result<String, String>)
    ensures
        r matches Ok(s) ==> toml_rendered(*v) == Some(s@),
        r is Err <==> toml_rendered(*v) is None,
        !toml_representable(*v) ==> r is Err,
{
    match value_to_toml(v) {
        Some(t) => toml::to_string(&t).map_err(|e| e.to_string()),
        None => Err(String::from("a null value cannot be represented in TOML")),
    }
}

/// What parsing text of format `f` yields.
pub open spec fn parsed_doc(f: Format, s: Seq<char>) -> Option<Doc> {
    match f {
        Format::JSON => json_parsed(s),
        Format::YAML => yaml_parsed(s),
        Format::TOML => toml_parsed(s),
    }
}

/// What rendering a value in format `f` yields.
pub open spec fn rendered_doc(f: Format, v: Doc) -> Option<Seq<char>> {
    match f {
        Format::JSON => json_rendered(v),
        Format::YAML => yaml_rendered(v),
        Format::TOML => toml_rendered(v),
    }
}

/// Parses raw text in the given format into the neutral value tree; any
/// violation of the format's grammar, and any construct the neutral tree
/// cannot hold, is a `ParseError` naming that format.
pub fn parse_value(text: &str, format: Format) -> (r: Result<Doc, ConvError>)
    ensures
        r matches Ok(v) ==> parsed_doc(format, text@) == Some(v),
        r is Err <==> parsed_doc(format, text@) is None,
        r matches Err(e) ==> (e matches ConvError::ParseError(f, _) && f == format),
{
    let raw = match format {
        Format::JSON => json_parse_raw(text),
        Format::YAML => yaml_parse_raw(text),
        Format::TOML => toml_parse_raw(text),
    };
    match raw {
        Ok(v) => Ok(v),
        Err(msg) => Err(ConvError::ParseError(format, msg)),
    }
}

/// Serializes the neutral value tree into the given format's text; a value
/// the format's data model cannot express is a `SerializeError` naming that
/// format. In particular a TOML document whose root is not a mapping, or
/// which holds a null anywhere, never serializes.
pub fn serialize_value(v: &Doc, format: Format) -> (r: Result<String, ConvError>)
    ensures
        r matches Ok(s) ==> rendered_doc(format, *v) == Some(s@),
        r is Err <==> rendered_doc(format, *v) is None,
        r matches Err(e) ==> (e matches ConvError::SerializeError(f, _) && f == format),
        format == Format::TOML && !toml_representable(*v) ==> r is Err,
{
    let raw = match format {
        Format::JSON => json_emit_raw(v),
        Format::YAML => yaml_emit_raw(v),
        Format::TOML => toml_emit_raw(v),
    };
    match raw {
        Ok(s) => Ok(s),
        Err(msg) => Err(ConvError::SerializeError(format, msg)),
    }
}

/// One whole conversion: parse the text as `in_format`, re-serialize the
/// resulting value as `out_format`. The outcome is exactly the composition
/// of the two steps, and each failure names the step and format it came from.
pub fn convert(text: &str, in_format: Format, out_format: Format) -> (r: Result<String, ConvError>)
    ensures
        parsed_doc(in_format, text@) is None ==> (r matches Err(e) && e matches
            ConvError::ParseError(f, _) && f == in_format),
        parsed_doc(in_format, text@) matches Some(v) ==> (rendered_doc(out_format, v) is None
            ==> (r matches Err(e) && e matches ConvError::SerializeError(f, _) && f == out_format)),
        parsed_doc(in_format, text@) matches Some(v) ==> (rendered_doc(out_format, v) matches Some(
            t,
        ) ==> (r matches Ok(s) && s@ == t)),
{
    match parse_value(text, in_format) {
        Ok(v) => serialize_value(&v, out_format),
        Err(e) => Err(e),
    }
}

} // verus!
