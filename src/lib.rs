//! Latest-frame hand-off between a video decoding worker and a polling
//! presentation loop: a single-slot mailbox that a producer overwrites and a
//! consumer drains into a destination surface buffer.

use vstd::prelude::*;

pub mod frame_slot;
pub mod producer;
pub mod shared;
pub mod surface;
pub mod theorems;

verus! {

} // verus!
