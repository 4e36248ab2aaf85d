//! The JSON boundary: trusted declarations for `serde_json` and verified
//! helpers built on them.
//!
//! A JSON value is modelled by its canonical pretty-printed
//! serialization, named `value_sem`: parsing that text reconstructs the
//! value exactly, so the canonical form determines the value.  Deep
//! equality of two values is named `sem_eq` over their canonical forms.
//! It is a coarser relation than equality of the forms themselves —
//! values with identical forms are deep-equal, but deep-equal values
//! may print differently (numeric edge cases such as the two floating
//! zeros) — so contracts that compare values speak of `sem_eq`, and
//! only the normalization step speaks of the forms as texts.

use vstd::prelude::*;
use vstd::string::*;

use crate::errors::AppError;

verus! {

/// Whether a text parses as JSON.
pub uninterp spec fn json_ok(s: Seq<char>) -> bool;

/// The canonical form of the value that a well-formed JSON text parses
/// to.  Unspecified on texts that do not parse.
pub uninterp spec fn json_sem(s: Seq<char>) -> Seq<char>;

/// The canonical form of a parsed JSON value.
pub uninterp spec fn value_sem(v: serde_json::Value) -> Seq<char>;

/// Whether the value with the given canonical form is a JSON object.
pub uninterp spec fn sem_is_object(sem: Seq<char>) -> bool;

/// The canonical form of the value after removing the named top-level
/// field; the identity on values that are not objects.
pub uninterp spec fn sem_without(sem: Seq<char>, field: Seq<char>) -> Seq<char>;

/// Deep equality of the two values with these canonical forms.
pub uninterp spec fn sem_eq(a: Seq<char>, b: Seq<char>) -> bool;

#[verifier::external_type_specification]
#[verifier::external_body]
pub struct ExJsonValue(serde_json::Value);

#[verifier::external_type_specification]
#[verifier::external_body]
pub struct ExJsonError(serde_json::Error);

/// Relies on `serde_json::from_str::<Value>`: parsing succeeds exactly
/// on well-formed JSON text, and the parsed value is determined by the
/// text alone.
#[verifier::external_body]
pub(crate) fn parse_json(s: &str) -> (r: Result<serde_json::Value, serde_json::Error>)
    ensures
        r is Ok <==> json_ok(s@),
        r is Ok ==> value_sem(r->Ok_0) == json_sem(s@),
{
    serde_json::from_str::<serde_json::Value>(s)
}

/// Relies on `serde_json::to_string_pretty`, with serde_json's
/// float-round-trip feature enabled: serializing a `Value` cannot fail
/// (its maps are string-keyed and its numbers finite), the output is
/// the value's canonical pretty form and well-formed JSON, and —
/// because the feature makes float parsing correctly rounded — parsing
/// the output back reconstructs the value exactly.
#[verifier::external_body]
pub(crate) fn to_pretty(v: &serde_json::Value) -> (r: String)
    ensures
        r@ == value_sem(*v),
        json_ok(r@),
        json_sem(r@) == value_sem(*v),
{
    serde_json::to_string_pretty(v).expect("serializing a JSON value cannot fail")
}

/// Relies on `<serde_json::Value as PartialEq>::eq`, the deep equality
/// that `sem_eq` names.  The canonical form determines the value (its
/// parse reconstructs it), so the result is a function of the two
/// forms; values with identical forms are deep-equal, while deep-equal
/// values may still print differently.
#[verifier::external_body]
pub(crate) fn values_equal(a: &serde_json::Value, b: &serde_json::Value) -> (r: bool)
    ensures
        r == sem_eq(value_sem(*a), value_sem(*b)),
        value_sem(*a) == value_sem(*b) ==> r,
{
    a == b
}

/// Relies on `serde_json::Value::is_object`.
#[verifier::external_body]
pub(crate) fn value_is_object(v: &serde_json::Value) -> (r: bool)
    ensures
        r == sem_is_object(value_sem(*v)),
{
    v.is_object()
}

/// Relies on serde_json's `Value::clone`, `Value::as_object_mut` and
/// `Map::remove`: the result is the input with the named top-level field
/// removed when the input is an object, and the input unchanged
/// otherwise.
#[verifier::external_body]
pub(crate) fn strip_field(v: &serde_json::Value, field: &str) -> (r: serde_json::Value)
    ensures
        value_sem(r) == sem_without(value_sem(*v), field@),
        !sem_is_object(value_sem(*v)) ==> value_sem(r) == value_sem(*v),
{
    let mut copy = v.clone();
    if let Some(obj) = copy.as_object_mut() {
        obj.remove(field);
    }
    copy
}

/// Relies on the `Display` impl of `serde_json::Error` for a description
/// of a parse failure; nothing is assumed of the text.
#[verifier::external_body]
pub(crate) fn json_error_message(e: &serde_json::Error) -> String {
    e.to_string()
}

/// Parse, require a JSON object, and re-serialize in the canonical
/// pretty form.  This is the normalization step of the switch protocol:
/// the returned text is the exact canonical form of the input's value,
/// so re-parsing it yields a value deep-equal to the input's.
pub fn normalize_json_object(content: &str) -> (r: Result<String, AppError>)
    ensures
        r is Ok <==> json_ok(content@) && sem_is_object(json_sem(content@)),
        r is Ok ==> r->Ok_0@ == json_sem(content@),
        r is Ok ==> json_ok(r->Ok_0@) && json_sem(r->Ok_0@) == json_sem(content@),
        r is Err ==> r->Err_0 is ConfigError,
        r is Err && json_ok(content@) ==> r->Err_0->ConfigError_0@
            == "Configuration must be a JSON object"@,
        r is Err && !json_ok(content@) ==> crate::text::spec_starts_with(
            r->Err_0->ConfigError_0@,
            "Invalid JSON content: "@,
        ),
{
    match parse_json(content) {
        Ok(value) => {
            if value_is_object(&value) {
                Ok(to_pretty(&value))
            } else {
                Err(
                    AppError::ConfigError(
                        String::from_str("Configuration must be a JSON object"),
                    ),
                )
            }
        },
        Err(e) => {
            let detail = json_error_message(&e);
            let message = String::from_str("Invalid JSON content: ").concat(detail.as_str());
            proof {
                crate::text::lemma_concat_starts_with("Invalid JSON content: "@, detail@);
            }
            Err(AppError::ConfigError(message))
        },
    }
}

} // verus!
