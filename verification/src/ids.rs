//! Fresh identifiers for playlists, waitlists and chatrooms.

use vstd::prelude::*;

verus! {

/// Relies on `rusty_ulid::Ulid::generate` (and `u128::from(Ulid)`) to draw a
/// fresh ULID from the clock and a random source and hand back its 128-bit
/// value.  The result depends on the time and on randomness, so nothing is
/// promised of it.
#[verifier::external_body]
pub(crate) fn generate_id() -> u128 {
    u128::from(rusty_ulid::Ulid::generate())
}

} // verus!
