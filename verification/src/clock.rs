use vstd::prelude::*;

verus! {

/// Reads the wall clock through `std::time::SystemTime::now` and returns the
/// whole seconds elapsed since the Unix epoch.
/// Nothing is stated of the value: it depends on when the call is made.
/// A clock set before 1970 gives 0.
#[verifier::external_body]
pub(crate) fn current_timestamp() -> u64 {
    match std::time::SystemTime::now().duration_since(std::time::UNIX_EPOCH) {
        Ok(d) => d.as_secs(),
        Err(_) => 0,
    }
}

} // verus!
