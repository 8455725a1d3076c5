//! Routing of items to workers: by a key's exchange hash for keyed steps,
//! at random for scattering a single input, to a fixed worker for capture.
use vstd::prelude::*;
use std::hash::Hasher;

verus! {

/// The worker that collects captured output. This is worker 0 of the whole
/// cluster; in a run over several processes it lives in process 0, which
/// need not be the process that started the run, so captured output may
/// be delivered there rather than to the caller. That behaviour is kept.
pub const CAPTURE_WORKER: u64 = 0;

/// What std's `DefaultHasher`, fresh from `new`, gives for the bytes
/// `digest` written into it.
pub uninterp spec fn default_hash_of(digest: Seq<u8>) -> u64;

/// Relies on `std::collections::hash_map::DefaultHasher`: `new`, then
/// `Hasher::write` of the digest, then `Hasher::finish`. Hashers made by
/// `new` all behave alike, so the result depends on the bytes alone.
#[verifier::external_body]
fn default_hash(digest: &[u8]) -> (r: u64)
    ensures
        r == default_hash_of(digest@),
{
    let mut hasher = std::collections::hash_map::DefaultHasher::new();
    hasher.write(digest);
    hasher.finish()
}

/// Relies on `rand::random` (rand 0.8): a value drawn from the thread-local
/// generator. Nothing is promised of it.
pub assume_specification<T>[ rand::random::<T> ]() -> (r: T)
    where
        rand::distributions::Standard: rand::distributions::Distribution<T>,
;

/// The exchange hash of a key whose stable digest is `digest`.
pub fn exchange_hash(digest: &[u8]) -> (r: u64)
    ensures
        r == default_hash_of(digest@),
{
    default_hash(digest)
}

/// A routing hash drawn at random, for scattering the items of a single
/// input over the workers.
pub fn scatter_hash() -> (r: u64) {
    rand::random::<u64>()
}

/// Keys with equal digests have equal exchange hashes and so are routed to
/// the same worker (the exchange hash modulo the number of workers), for
/// any number of workers.
pub proof fn law_equal_keys_same_worker(d1: Seq<u8>, d2: Seq<u8>, workers: u64)
    requires
        d1 == d2,
        workers > 0,
    ensures
        default_hash_of(d1) % workers == default_hash_of(d2) % workers,
        default_hash_of(d1) % workers < workers,
{
}

} // verus!
