//! The engine's only source of randomness: one inclusive integer draw.
use vstd::prelude::*;

verus! {

/// Relies on `rand::Rng::gen_range` over `lo..=hi` on the thread-local
/// generator: it panics only on an empty range, and otherwise returns a
/// value of the range. Nothing more is assumed of the draw.
#[verifier::external_body]
pub fn draw_u32_inclusive(lo: u32, hi: u32) -> (r: u32)
    requires
        lo <= hi,
    ensures
        lo <= r <= hi,
{
    let mut rng = rand::thread_rng();
    rand::Rng::gen_range(&mut rng, lo..=hi)
}

} // verus!
