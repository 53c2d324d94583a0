use vstd::prelude::*;

use crate::frame_slot::{after_publishes, after_take, published, taken};
use crate::producer::{stopped, ProducerState};
use crate::surface::surface_after_tick;

verus! {

/// Publishing `a` and then `b` before any take leaves `b` alone in the slot:
/// the next take returns `b`, and `a` can no longer be taken.
pub proof fn overwrite_keeps_latest(s: Option<Seq<u8>>, a: Seq<u8>, b: Seq<u8>)
    ensures
        taken(published(published(s, a), b)) == Some(b),
        taken(after_take(published(published(s, a), b))) == None::<Seq<u8>>,
{
}

/// A take that returned a frame empties the slot: a second take with no
/// publish in between returns nothing.
pub proof fn take_drains(s: Option<Seq<u8>>)
    ensures
        taken(after_take(s)) == None::<Seq<u8>>,
{
}

/// After any number of publishes the slot holds the last frame published,
/// or what it held before when there were none; so a consumer tick after a
/// burst of publishes writes exactly the last frame into the surface.
pub proof fn latest_frame_wins(start: Option<Seq<u8>>, frames: Seq<Seq<u8>>, dest: Seq<u8>)
    requires
        frames.len() > 0,
    ensures
        after_publishes(start, frames) == Some(frames.last()),
        surface_after_tick(after_publishes(start, frames), dest) == frames.last(),
{
}

/// Stopping the producer is idempotent and never touches the slot, which
/// after zero or more publishes on a fresh slot is either empty or holds the
/// last frame published.
pub proof fn shutdown_well_defined(s: ProducerState, frames: Seq<Seq<u8>>)
    ensures
        stopped(stopped(s)) == stopped(s),
        stopped(s).stop_requested,
        stopped(s).stalled == s.stalled,
        frames.len() == 0 ==> after_publishes(None, frames) == None::<Seq<u8>>,
        frames.len() > 0 ==> after_publishes(None, frames) == Some(frames.last()),
{
}

} // verus!
