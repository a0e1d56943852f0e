//! The text boundary: parsing a wire document's text into the library's JSON
//! tree and rendering a tree back to text. Only this module calls serde_json;
//! everything downstream of the tree is verified against `decode` and
//! `encode`.

use vstd::prelude::*;

use crate::decode::DecodeErrV;
use crate::decode::DecodeError;
use crate::decode::SegV;
use crate::decode::decode_daily_games;
use crate::decode::spec_decode_daily_games;
use crate::json::JsonNumber;
use crate::json::JsonV;
use crate::json::JsonValue;
use crate::model::DailyGames;
use crate::model::DailyGamesV;
use crate::encode::encode_daily_games;
use crate::encode::spec_encode_daily_games;

use serde_json::Value as SjValue;

verus! {

/// serde_json's tree type, declared so that it can cross the trusted
/// boundary; the library never reads into a value of it.
#[verifier::external_type_specification]
#[verifier::external_body]
pub struct ExSjValue(SjValue);

/// serde_json's number type, declared for the same reason.
#[verifier::external_type_specification]
#[verifier::external_body]
pub struct ExSjNumber(serde_json::Number);

/// What parsing a text yields: `None` where the text is not a well-formed
/// JSON document, else the tree. A pure function of the text alone.
pub uninterp spec fn parsed_json(s: Seq<char>) -> Option<JsonV>;

/// What rendering a tree yields. A pure function of the tree alone.
pub uninterp spec fn rendered_json(v: JsonV) -> Seq<char>;

/// Relies on serde_json::Number::as_i64 and ToString::to_string for
/// serde_json::Number: an integral number in the 64-bit signed range is
/// handed over exactly; any other number is kept as its decimal lexeme.
#[verifier::external_body]
fn number_from_serde(n: serde_json::Number) -> (r: JsonNumber) {
    match n.as_i64() {
        Some(i) => JsonNumber::Int(i),
        None => JsonNumber::Dec(n.to_string()),
    }
}

/// Relies on serde_json::Value's variants: each arm moves one variant's
/// payload into the library's tree, arrays and objects element by element.
#[verifier::external_body]
fn tree_from_serde(v: SjValue) -> (r: JsonValue) {
    match v {
        SjValue::Null => JsonValue::Null,
        SjValue::Bool(b) => JsonValue::Bool(b),
        SjValue::Number(n) => JsonValue::Num(number_from_serde(n)),
        SjValue::String(s) => JsonValue::Str(s),
        SjValue::Array(a) => JsonValue::Arr(a.into_iter().map(tree_from_serde).collect()),
        SjValue::Object(o) => JsonValue::Obj(
            o.into_iter().map(|p| (p.0, tree_from_serde(p.1))).collect(),
        ),
    }
}

/// Relies on str::parse::<serde_json::Number>: turns a number lexeme back
/// into serde_json's number; a lexeme no number can be read from falls back
/// to zero, deterministically.
#[verifier::external_body]
fn number_to_serde(n: &JsonNumber) -> (r: serde_json::Number) {
    match n {
        JsonNumber::Int(i) => serde_json::Number::from(*i),
        JsonNumber::Dec(s) => s.parse().unwrap_or(serde_json::Number::from(0i64)),
    }
}

/// Relies on serde_json::Value's constructors: each arm moves one variant's
/// payload over, arrays and objects element by element.
#[verifier::external_body]
fn tree_to_serde(v: &JsonValue) -> (r: SjValue) {
    match v {
        JsonValue::Null => SjValue::Null,
        JsonValue::Bool(b) => SjValue::Bool(*b),
        JsonValue::Num(n) => SjValue::Number(number_to_serde(n)),
        JsonValue::Str(s) => SjValue::String(s.clone()),
        JsonValue::Arr(a) => SjValue::Array(a.iter().map(tree_to_serde).collect()),
        JsonValue::Obj(o) => SjValue::Object(
            o.iter().map(|p| (p.0.clone(), tree_to_serde(&p.1))).collect(),
        ),
    }
}

/// Relies on serde_json::from_str::<serde_json::Value>: whether the text
/// parses, and to what tree, depends on the text alone, and the conversion
/// to the library's tree is deterministic too.
#[verifier::external_body]
fn parse_json(text: &str) -> (r: Option<JsonValue>)
    ensures
        match r {
            Some(v) => parsed_json(text@) == Some(v@),
            None => parsed_json(text@) is None,
        },
{
    match serde_json::from_str::<SjValue>(text) {
        Ok(v) => Some(tree_from_serde(v)),
        Err(_) => None,
    }
}

/// Relies on serde_json::to_string: rendering a tree of string keys cannot
/// fail and depends on the tree alone (object keys come out sorted).
#[verifier::external_body]
fn render_json(v: &JsonValue) -> (r: String)
    ensures
        r@ == rendered_json(v@),
{
    serde_json::to_string(&tree_to_serde(v)).unwrap_or(String::new())
}

/// Decodes one wire document: parses the text and maps the tree to the
/// canonical records. Fails with `Parse` exactly where the text is not a
/// well-formed document, and with `TypeMismatch` at exactly the path the
/// tree decode names.
pub fn decode_document(text: &str) -> (r: Result<DailyGames, DecodeError>)
    ensures
        match r {
            Ok(d) => parsed_json(text@) matches Some(v) && spec_decode_daily_games(v) == Ok::<
                DailyGamesV,
                Seq<SegV>,
            >(d@),
            Err(e) => match e@ {
                DecodeErrV::Parse => parsed_json(text@) is None,
                DecodeErrV::TypeMismatch(p) => parsed_json(text@) matches Some(v)
                    && spec_decode_daily_games(v) == Err::<
                    DailyGamesV,
                    Seq<SegV>,
                >(p),
            },
        },
{
    let tree = match parse_json(text) {
        Some(v) => v,
        None => {
            return Err(DecodeError::Parse);
        },
    };
    match decode_daily_games(&tree) {
        Ok(d) => Ok(d),
        Err(p) => Err(DecodeError::TypeMismatch(p)),
    }
}

/// Encodes one document record to wire text: builds the wire tree and
/// renders it.
pub fn encode_document(d: &DailyGames) -> (r: String)
    ensures
        r@ == rendered_json(spec_encode_daily_games(d@)),
{
    let tree = encode_daily_games(d);
    render_json(&tree)
}

} // verus!
