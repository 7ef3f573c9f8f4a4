//! Process entropy for stream identities.
//!
//! Each stream start carries a fresh identity drawn from the process's
//! random generator. Nothing can be promised of a random value, so the
//! draw has no contract; everything built on it holds for every outcome.

use vstd::prelude::*;

verus! {

/// Relies on `rand::random`: draws one value from the thread-local
/// generator. The result depends on the generator's state, so nothing is
/// promised of it.
pub assume_specification<T>[ rand::random::<T> ]() -> (r: T)
    where
        rand::distributions::Standard: rand::distributions::Distribution<T>,
;

/// A fresh stream identity: two independent draws of process entropy,
/// combined into one word.
pub(crate) fn fresh_stream_id() -> u64 {
    let high = rand::random::<u32>();
    let low = rand::random::<u32>();
    ((high as u64) << 32u64) | (low as u64)
}

} // verus!
