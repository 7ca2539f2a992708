//! The source of chance behind the unreliable endpoint.

use rand::Rng;
use vstd::prelude::*;

verus! {

/// Calls `rand::Rng::gen_range` with the range `0..10` on the thread's
/// generator. The contract claims only that the draw lies in that range.
#[verifier::external_body]
pub(crate) fn draw_below_ten() -> (r: u32)
    ensures
        r < 10,
{
    rand::thread_rng().gen_range(0..10)
}

} // verus!
