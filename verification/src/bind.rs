//! The boundary to the execution engine's value types. The library never
//! looks inside a bound value: parameter values are carried through opaquely,
//! and each conversion performed here is named by an uninterpreted spec
//! function, so that the build protocol's contracts can state that the same
//! tree always registers the same parameter list.

use vstd::prelude::*;

use chrono::{DateTime, SecondsFormat, Utc};
use rusqlite::types::{ToSqlOutput, Value};
use rusqlite::vtab::array::Array;

verus! {

#[verifier::external_type_specification]
#[verifier::external_body]
pub struct ExValue(Value);

#[verifier::external_type_specification]
#[verifier::external_body]
pub struct ExToSqlOutput<'a>(ToSqlOutput<'a>);

pub uninterp spec fn owned_param(v: Value) -> ToSqlOutput<'static>;

pub uninterp spec fn array_param(a: Array) -> ToSqlOutput<'static>;

pub uninterp spec fn text_value(s: Seq<char>) -> Value;

pub uninterp spec fn utc_rfc3339_millis(millis: int) -> Seq<char>;

/// Relies on rusqlite's `ToSqlOutput::Owned` constructor and `Value`'s derived
/// `Clone`: the clone equals the original, so the result is a function of the
/// value alone.
#[verifier::external_body]
pub(crate) fn owned_output(v: &Value) -> (r: ToSqlOutput<'static>)
    ensures
        r == owned_param(*v),
{
    ToSqlOutput::Owned(v.clone())
}

/// Relies on rusqlite's `ToSqlOutput::Array` constructor and `Rc`'s `Clone`:
/// the clone shares the same vector, so the result is a function of the
/// array's contents alone.
#[verifier::external_body]
pub(crate) fn array_output(a: &Array) -> (r: ToSqlOutput<'static>)
    ensures
        r == array_param(*a),
{
    ToSqlOutput::Array(a.clone())
}

/// Relies on rusqlite's `From<String>` for `Value`: the result is the `Text`
/// variant holding exactly the given string.
#[verifier::external_body]
pub(crate) fn string_value(s: String) -> (r: Value)
    ensures
        r == text_value(s@),
{
    Value::from(s)
}

/// Relies on chrono: `DateTime::<Utc>::from_timestamp_millis` accepts any
/// millisecond count within chrono's representable range (roughly 262,000
/// years either side of the common era) and returns `None` outside it, and
/// `to_rfc3339_opts(SecondsFormat::Millis, false)` formats the instant; the
/// text depends on the millisecond count alone.
#[verifier::external_body]
pub(crate) fn format_utc_millis(millis: i64) -> (r: Option<String>)
    ensures
        r matches Some(s) ==> s@ == utc_rfc3339_millis(millis as int),
{
    match DateTime::<Utc>::from_timestamp_millis(millis) {
        Some(d) => Some(d.to_rfc3339_opts(SecondsFormat::Millis, false)),
        None => None,
    }
}

} // verus!
