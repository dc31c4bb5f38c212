use vstd::prelude::*;

verus! {

/// Relies on uuid::Uuid::new_v4 and its `Display`: a random version-4 UUID
/// written in the lower-case hyphenated form, 36 characters long.
#[verifier::external_body]
pub(crate) fn fresh_uuid() -> (r: String)
    ensures
        r@.len() == 36,
{
    uuid::Uuid::new_v4().to_string()
}

/// Relies on chrono::Utc::now and DateTime::timestamp: the current time in
/// whole seconds since the Unix epoch. Nothing is known of its value.
#[verifier::external_body]
pub(crate) fn now_epoch_seconds() -> (r: i64) {
    chrono::Utc::now().timestamp()
}

} // verus!
