use vstd::prelude::*;

verus! {

/// The persistent record of one stored blob, as the row inserted into the
/// `pastes` table. `id` is the canonical 36-character lowercase hyphenated
/// rendering of the paste's v4 UUID; `filename` is the on-disk name under
/// the storage directory, `<id>` or `<id>.<ext>`; `size` is the byte count
/// of the stored file; `timestamp` is the creation time in seconds since
/// the Unix epoch.
pub struct PasteInfo {
    pub id: String,
    pub size: u32,
    pub filename: String,
    pub timestamp: i64,
}

/// The single column returned by the row-deleting lookup: the on-disk
/// filename of the paste whose row was just removed.
pub struct FileNameWrapper {
    pub filename: String,
}

/// One row of the `tokens` table: a bearer credential pre-provisioned by an
/// operator, and its creation time in seconds since the Unix epoch.
pub struct TokenInfo {
    pub value: String,
    pub created_at: i64,
}

/// The query parameters of a create-paste request.
pub struct TokenParam {
    pub token: String,
}

/// The query parameters of a delete-paste request.
pub struct IdTokenParam {
    pub token: String,
    pub id: String,
}

} // verus!
