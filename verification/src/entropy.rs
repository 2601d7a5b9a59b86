use vstd::prelude::*;

verus! {

/// Relies on std::time::SystemTime::now and Duration::as_nanos: nanoseconds
/// since the Unix epoch, truncated to 64 bits. The value depends on the
/// wall clock, so nothing is stated of it. A clock reading earlier than
/// the epoch means the system clock is unavailable for key generation;
/// that is unrecoverable here, and the unwrap ends the process.
#[verifier::external_body]
pub(crate) fn now_nanos() -> u64 {
    std::time::SystemTime::now()
        .duration_since(std::time::UNIX_EPOCH)
        .unwrap()
        .as_nanos() as u64
}

/// Relies on rand::random_range: a value sampled uniformly from `0..n`.
/// The range must not be empty, or the call panics; the result depends on
/// the thread-local generator, so only its bound is stated.
#[verifier::external_body]
pub(crate) fn random_below(n: usize) -> (r: usize)
    requires
        n > 0,
    ensures
        r < n,
{
    rand::random_range(0..n)
}

} // verus!
