use vstd::prelude::*;

verus! {

/// Gets the current Unix timestamp, in seconds.
///
/// Relies on std::time::SystemTime for the current time; at a clock reading
/// before the Unix epoch it reports zero. The result depends on the clock,
/// so nothing is assumed of it.
#[verifier::external_body]
pub fn now_timestamp() -> u64 {
    match std::time::SystemTime::now().duration_since(std::time::SystemTime::UNIX_EPOCH) {
        Ok(elapsed) => elapsed.as_secs(),
        Err(_) => 0,
    }
}

} // verus!
