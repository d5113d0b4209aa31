//! Identifiers and timestamps drawn from outside crates.

use vstd::prelude::*;

verus! {

/// Relies on uuid::Uuid::new_v4 and uuid's Display form: a fresh random
/// version-4 UUID rendered in the 36-character hyphenated form. The value
/// is random; only its length is promised.
#[verifier::external_body]
pub fn fresh_id() -> (r: String)
    ensures
        r@.len() == 36,
{
    uuid::Uuid::new_v4().to_string()
}

/// Relies on chrono::Utc::now and chrono's DateTime::timestamp: the
/// current time as whole seconds since the Unix epoch. The clock decides
/// the value; nothing is promised of it.
#[verifier::external_body]
pub fn now_unix_seconds() -> i64 {
    chrono::Utc::now().timestamp()
}

/// Relies on chrono::Utc::now and chrono's DateTime::format: the current
/// UTC time rendered for report headers. The clock decides the value;
/// nothing is promised of it.
#[verifier::external_body]
pub fn now_display_utc() -> String {
    chrono::Utc::now().format("%Y年%m月%d日 %H:%M UTC").to_string()
}

} // verus!
