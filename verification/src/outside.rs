use vstd::prelude::*;

use crate::names::wf_uuid;

verus! {

/// Relies on `uuid::Uuid::new_v4` and the `Display` rendering of `Uuid`:
/// a freshly drawn random version-4 UUID, formatted in its canonical
/// hyphenated lowercase form — 36 characters, hyphens at positions 8, 13,
/// 18 and 23, lowercase hexadecimal digits everywhere else. The value is
/// random, so nothing beyond that shape is promised.
#[verifier::external_body]
pub(crate) fn fresh_uuid() -> (r: String)
    ensures
        wf_uuid(r@),
{
    uuid::Uuid::new_v4().to_string()
}

/// Relies on `chrono::Utc::now` and `DateTime::timestamp`: the current
/// time as whole seconds since the Unix epoch. The result depends on the
/// machine's clock, so nothing is promised of it.
#[verifier::external_body]
pub(crate) fn now_unix_seconds() -> i64 {
    chrono::Utc::now().timestamp()
}

} // verus!
