//! Resolving the secret from the configuration document.
//!
//! The document is JSON text. The secret is the text held under the member
//! `oauth` of its top-level object. A document that is not there, that does
//! not parse, or that holds no such text degrades to the empty secret: no
//! failure is passed on to the caller.

use vstd::prelude::*;

verus! {

/// What a JSON value holds, as far as a lookup of one text member reads it.
pub enum Json {
    /// A JSON string.
    Text(Seq<char>),
    /// A JSON object: its members by name.
    Object(Map<Seq<char>, Json>),
    /// Null, a boolean, a number or an array.
    Other,
}

/// `serde_json::Value`, carried through as an opaque value.
#[verifier::external_type_specification]
#[verifier::external_body]
pub struct ExValue(serde_json::Value);

/// `serde_json::Error`, carried through as an opaque value.
#[verifier::external_type_specification]
#[verifier::external_body]
pub struct ExJsonError(serde_json::Error);

/// What a `serde_json::Value` holds.
pub uninterp spec fn json_of(value: serde_json::Value) -> Json;

/// The value that `serde_json::from_slice` reads from `text`, or `None`
/// where it rejects the text.
pub uninterp spec fn parsed_json(text: Seq<u8>) -> Option<Json>;

/// Calls `serde_json::from_slice` for a `Value`. Trusted: the outcome
/// depends on the bytes alone and is the one that `parsed_json` names for
/// them, a value where the parser accepts the whole text as one JSON value
/// and an error where it rejects it.
#[verifier::external_body]
fn parse_document(text: &[u8]) -> (parsed: Result<serde_json::Value, serde_json::Error>)
    ensures
        parsed matches Ok(value) ==> parsed_json(text@) == Some(json_of(value)),
        parsed is Err ==> parsed_json(text@) is None,
{
    serde_json::from_slice::<serde_json::Value>(text)
}

/// Calls `Value::get` with a string index. Trusted: the result is the
/// member of that name where the value is an object that has one, and
/// `None` where it is no object or has no such member.
#[verifier::external_body]
fn member<'a>(value: &'a serde_json::Value, name: &str) -> (found: Option<&'a serde_json::Value>)
    ensures
        found matches Some(inner) ==> (json_of(*value) matches Json::Object(members)
            && members.contains_key(name@) && members[name@] == json_of(*inner)),
        found is None ==> !(json_of(*value) matches Json::Object(members)
            && members.contains_key(name@)),
{
    value.get(name)
}

/// Calls `Value::as_str`. Trusted: the result is the text of a JSON string,
/// and `None` for every other kind of value.
#[verifier::external_body]
fn text<'a>(value: &'a serde_json::Value) -> (found: Option<&'a str>)
    ensures
        found matches Some(s) ==> json_of(*value) == Json::Text(s@),
        found is None ==> !(json_of(*value) is Text),
{
    value.as_str()
}

/// Why a configuration document yields no secret.
#[derive(Clone, Copy, Debug, PartialEq, Eq, Structural)]
pub enum ConfigurationUnavailable {
    /// There is no document: the file could not be opened or read.
    DocumentMissing,
    /// The parser rejects the document: it is not one JSON value, or one
    /// that is nested or sized beyond what the parser takes.
    Unparseable,
    /// The document is no object, or is an object without the member.
    FieldMissing,
    /// The member is there and holds something other than text.
    FieldNotText,
}

/// The name of the member that holds the secret.
pub open spec fn oauth_key() -> Seq<char> {
    "oauth"@
}

/// What a parsed document yields: the text under the member, or the reason
/// why there is none.
pub open spec fn document_outcome(doc: Json) -> Result<Seq<char>, ConfigurationUnavailable> {
    match doc {
        Json::Object(members) => if members.contains_key(oauth_key()) {
            match members[oauth_key()] {
                Json::Text(s) => Ok(s),
                _ => Err(ConfigurationUnavailable::FieldNotText),
            }
        } else {
            Err(ConfigurationUnavailable::FieldMissing)
        },
        _ => Err(ConfigurationUnavailable::FieldMissing),
    }
}

/// What a configuration yields, from the bytes of the document or from
/// their absence.
pub open spec fn config_outcome(config: Option<Seq<u8>>) -> Result<
    Seq<char>,
    ConfigurationUnavailable,
> {
    match config {
        None => Err(ConfigurationUnavailable::DocumentMissing),
        Some(bytes) => match parsed_json(bytes) {
            None => Err(ConfigurationUnavailable::Unparseable),
            Some(doc) => document_outcome(doc),
        },
    }
}

/// The secret that a configuration resolves to: the text it yields, and the
/// empty secret where it yields none.
pub open spec fn secret_of(config: Option<Seq<u8>>) -> Seq<char> {
    match config_outcome(config) {
        Ok(s) => s,
        Err(_) => Seq::empty(),
    }
}

/// The bytes of a configuration, where there is one.
pub open spec fn config_view(config: Option<&[u8]>) -> Option<Seq<u8>> {
    match config {
        Some(bytes) => Some(bytes@),
        None => None,
    }
}

/// Whether `found` is the outcome `expected`, the text taken by its view.
pub open spec fn is_outcome(
    found: Result<String, ConfigurationUnavailable>,
    expected: Result<Seq<char>, ConfigurationUnavailable>,
) -> bool {
    match found {
        Ok(s) => expected == Ok::<Seq<char>, ConfigurationUnavailable>(s@),
        Err(why) => expected == Err::<Seq<char>, ConfigurationUnavailable>(why),
    }
}

/// Reads the secret out of a parsed document.
pub fn secret_from_document(doc: &serde_json::Value) -> (found: Result<
    String,
    ConfigurationUnavailable,
>)
    ensures
        is_outcome(found, document_outcome(json_of(*doc))),
{
    match member(doc, "oauth") {
        None => Err(ConfigurationUnavailable::FieldMissing),
        Some(inner) => match text(inner) {
            None => Err(ConfigurationUnavailable::FieldNotText),
            Some(s) => Ok(s.to_owned()),
        },
    }
}

/// Resolves a configuration to its secret, or to the reason why it has
/// none. `config` holds the bytes of the document, `None` where the file
/// could not be read.
pub fn resolve(config: Option<&[u8]>) -> (found: Result<String, ConfigurationUnavailable>)
    ensures
        is_outcome(found, config_outcome(config_view(config))),
{
    match config {
        None => Err(ConfigurationUnavailable::DocumentMissing),
        Some(bytes) => match parse_document(bytes) {
            Err(_) => Err(ConfigurationUnavailable::Unparseable),
            Ok(doc) => secret_from_document(&doc),
        },
    }
}

/// The secret of a configuration. Never fails: a configuration without a
/// secret gives the empty one.
pub fn get_token(config: Option<&[u8]>) -> (secret: String)
    ensures
        secret@ == secret_of(config_view(config)),
{
    match resolve(config) {
        Ok(secret) => secret,
        Err(_) => String::new(),
    }
}

/// Whether `doc` is an object whose member `oauth` holds the text `s`.
pub open spec fn holds_secret(doc: Json, s: Seq<char>) -> bool {
    doc matches Json::Object(members) && members.contains_key(oauth_key()) && members[oauth_key()]
        == Json::Text(s)
}

/// Whether `doc` has no text under the member `oauth`: it is no object, or
/// has no such member, or holds something else there.
pub open spec fn lacks_secret(doc: Json) -> bool {
    !(doc matches Json::Object(members) && members.contains_key(oauth_key())
        && members[oauth_key()] is Text)
}

/// A document that parses to an object with the text `s` under `oauth`
/// resolves to `s` exactly, whatever `s` is.
pub proof fn law_document_with_secret_resolves_to_it(bytes: Seq<u8>, s: Seq<char>)
    ensures
        (parsed_json(bytes) matches Some(doc) && holds_secret(doc, s)) ==> secret_of(Some(bytes))
            == s,
{
}

/// A configuration without a document, with a document that does not parse,
/// or with one that has no text under `oauth`, resolves to the empty secret.
pub proof fn law_unavailable_configuration_resolves_to_empty(config: Option<Seq<u8>>)
    ensures
        config is None ==> secret_of(config) == Seq::<char>::empty(),
        (config matches Some(bytes) && parsed_json(bytes) is None) ==> secret_of(config)
            == Seq::<char>::empty(),
        (config matches Some(bytes) && parsed_json(bytes) matches Some(doc) && lacks_secret(doc))
            ==> secret_of(config) == Seq::<char>::empty(),
{
}

/// The secret is the yielded text on success and empty on every failure, so
/// the reason of a failure never changes what the caller gets.
pub proof fn law_secret_follows_outcome(config: Option<Seq<u8>>)
    ensures
        config_outcome(config) matches Ok(s) ==> secret_of(config) == s,
        config_outcome(config) is Err ==> secret_of(config) == Seq::<char>::empty(),
{
}

/// Where the configuration file is looked for, relative to the working
/// directory of the process.
pub const CONFIG_PATH: &'static str = "etc/secret.json";

} // verus!
