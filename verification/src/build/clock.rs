//! Names that carry the time.
use vstd::prelude::*;
use crate::number::{format_i64, signed_decimal};
use crate::text::{concat2, concat3};

verus! {

/// Calls chrono's `Utc::now` and `DateTime::timestamp`: the seconds since the beginning of 1970.
/// The clock may show anything after that moment; before it `Utc::now` panics.
#[verifier::external_body]
fn utc_seconds() -> (r: i64)
    ensures
        r >= 0,
{
    chrono::Utc::now().timestamp()
}

/// Calls chrono's `Utc::now` and `DateTime::timestamp_millis`: the milliseconds since the
/// beginning of 1970. The clock may show anything after that moment; before it `Utc::now` panics.
#[verifier::external_body]
fn utc_millis() -> (r: i64)
    ensures
        r >= 0,
{
    chrono::Utc::now().timestamp_millis()
}

/// Calls chrono's `Utc::now` and `DateTime::timestamp_nanos_opt`: the nanoseconds since the
/// beginning of 1970, or `None` where they do not fit. The clock may show anything after that
/// moment; before it `Utc::now` panics.
#[verifier::external_body]
fn utc_nanos() -> (r: Option<i64>)
    ensures
        r matches Some(n) ==> n >= 0,
{
    chrono::Utc::now().timestamp_nanos_opt()
}

/// The name of a build that begins at `millis`.
pub open spec fn build_name(millis: i64) -> Seq<char> {
    "build-"@ + signed_decimal(millis as int)
}

/// The name of a layer that is finished at `nanos`.
pub open spec fn layer_name(nanos: Option<i64>) -> Seq<char> {
    let n: i64 = match nanos {
        Some(n) => n,
        None => 0,
    };
    "layer_"@ + signed_decimal(n as int) + ".sqfs"@
}

/// The name of a layer that a file was put into at `seconds`.
pub open spec fn injected_name(seconds: i64) -> Seq<char> {
    "layer_"@ + signed_decimal(seconds as int) + "_injected.sqfs"@
}

/// The name of a build that begins at `millis`.
pub fn build_name_at(millis: i64) -> (r: String)
    ensures
        r@ == build_name(millis),
{
    concat2("build-", format_i64(millis).as_str())
}

/// The name of a layer that is finished at `nanos`.
pub fn layer_name_at(nanos: Option<i64>) -> (r: String)
    ensures
        r@ == layer_name(nanos),
{
    let n: i64 = match nanos {
        Some(n) => n,
        None => 0,
    };
    concat3("layer_", format_i64(n).as_str(), ".sqfs")
}

/// The name of a layer that a file was put into at `seconds`.
pub fn injected_name_at(seconds: i64) -> (r: String)
    ensures
        r@ == injected_name(seconds),
{
    concat3("layer_", format_i64(seconds).as_str(), "_injected.sqfs")
}

/// The name of a build that begins now.
pub fn build_name_now() -> (r: String)
    ensures
        exists|millis: i64| millis >= 0 && r@ == #[trigger] build_name(millis),
{
    build_name_at(utc_millis())
}

/// The name of a layer that is finished now.
pub fn layer_name_now() -> (r: String)
    ensures
        exists|nanos: Option<i64>|
            (nanos matches Some(n) ==> n >= 0) && r@ == #[trigger] layer_name(nanos),
{
    layer_name_at(utc_nanos())
}

/// The name of a layer that a file is put into now.
pub fn injected_name_now() -> (r: String)
    ensures
        exists|seconds: i64| seconds >= 0 && r@ == #[trigger] injected_name(seconds),
{
    injected_name_at(utc_seconds())
}

} // verus!
