//! What the library takes from its surroundings: the wall clock, fresh
//! identifiers and the presence of a file. None of these is verified; each
//! states what it relies on.

use vstd::prelude::*;

verus! {

/// Reads the wall clock with `chrono::Utc::now` and gives the reading as
/// whole milliseconds since the Unix epoch (`DateTime::timestamp_millis`).
/// Nothing is claimed of the reading: two readings may even go backwards.
/// chrono gives up with a panic on a machine whose clock stands before 1970.
#[verifier::external_body]
pub(crate) fn now_millis() -> (now: i64) {
    chrono::Utc::now().timestamp_millis()
}

/// Draws a random identifier with `uuid::Uuid::new_v4` and writes it in the
/// hyphenated lower-case form (`Uuid`'s `Display`), which always has 36
/// characters. Which identifier comes out is left open, and so is whether it
/// was seen before. uuid gives up with a panic when the operating system
/// hands out no random bytes.
#[verifier::external_body]
pub(crate) fn fresh_id() -> (id: String)
    ensures
        id@.len() == 36,
{
    uuid::Uuid::new_v4().to_string()
}

/// Asks the file system with `std::path::Path::exists` whether `path` names
/// something that is there. The answer may change from one call to the next.
#[verifier::external_body]
pub(crate) fn path_exists(path: &str) -> (present: bool) {
    std::path::Path::new(path).exists()
}

} // verus!
