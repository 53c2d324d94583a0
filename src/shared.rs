use vstd::prelude::*;
use vstd::rwlock::{RwLock, RwLockPredicate};

use std::sync::Arc;

use crate::frame_slot::FrameSlot;
use crate::producer::deliver;

verus! {

/// The lock's invariant on the slot it guards: every slot state is allowed,
/// so publishing never fails.
pub struct AnySlot {}

impl RwLockPredicate<FrameSlot> for AnySlot {
    open spec fn inv(self, v: FrameSlot) -> bool {
        true
    }
}

/// A frame slot shared between the producer and the consumer. Every access
/// to the slot happens while holding its lock, and the lock is held only for
/// the swap itself, so a frame is always moved in or out whole.
#[derive(Clone)]
pub struct SharedFrame {
    lock: Arc<RwLock<FrameSlot, AnySlot>>,
}

impl SharedFrame {
    /// A shared slot that starts empty.
    pub fn new() -> (s: SharedFrame) {
        let slot = FrameSlot::new();
        SharedFrame { lock: Arc::new(RwLock::new(slot, Ghost(AnySlot {}))) }
    }

    /// Stores `frame` under the lock, replacing any pending frame.
    pub fn publish(&self, frame: Vec<u8>) {
        let (mut slot, handle) = self.lock.acquire_write();
        slot.publish(frame);
        handle.release_write(slot);
    }

    /// Removes and returns the pending frame under the lock. What comes back
    /// depends on what the other side did before, so nothing more is stated.
    pub fn take(&self) -> (r: Option<Vec<u8>>) {
        let (mut slot, handle) = self.lock.acquire_write();
        let r = slot.take();
        handle.release_write(slot);
        r
    }

    /// Hands one delivery to the slot under the lock: extracted bytes are
    /// published, a delivery without bytes is skipped. Returns whether a
    /// frame was published.
    pub fn deliver(&self, extracted: Option<Vec<u8>>) -> (r: bool)
        ensures
            r == (extracted is Some),
    {
        let (mut slot, handle) = self.lock.acquire_write();
        let r = deliver(&mut slot, extracted);
        handle.release_write(slot);
        r
    }
}

} // verus!
