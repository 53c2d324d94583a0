use vstd::prelude::*;

verus! {

/// The slot's contents after `frame` is published: the new frame, whatever
/// was pending before.
pub open spec fn published(slot: Option<Seq<u8>>, frame: Seq<u8>) -> Option<Seq<u8>> {
    Some(frame)
}

/// What a take hands out: everything that was pending.
pub open spec fn taken(slot: Option<Seq<u8>>) -> Option<Seq<u8>> {
    slot
}

/// The slot's contents after a take: always empty.
pub open spec fn after_take(slot: Option<Seq<u8>>) -> Option<Seq<u8>> {
    None
}

/// The contents of a slot that started as `start` after each frame of
/// `frames` was published, in order.
pub open spec fn after_publishes(start: Option<Seq<u8>>, frames: Seq<Seq<u8>>) -> Option<
    Seq<u8>,
>
    decreases frames.len(),
{
    if frames.len() == 0 {
        start
    } else {
        published(after_publishes(start, frames.drop_last()), frames.last())
    }
}

/// The bytes of an optional owned frame.
pub open spec fn frame_view(f: Option<Vec<u8>>) -> Option<Seq<u8>> {
    match f {
        Some(v) => Some(v@),
        None => None,
    }
}

/// A single-item mailbox holding at most one pending frame. Publishing
/// replaces whatever is pending; taking empties the slot.
pub struct FrameSlot {
    pending: Option<Vec<u8>>,
}

impl View for FrameSlot {
    type V = Option<Seq<u8>>;

    closed spec fn view(&self) -> Option<Seq<u8>> {
        frame_view(self.pending)
    }
}

impl FrameSlot {
    /// An empty slot.
    pub fn new() -> (s: FrameSlot)
        ensures
            s@ == None::<Seq<u8>>,
    {
        FrameSlot { pending: None }
    }

    /// Stores `frame`, dropping any frame that was pending and never taken.
    pub fn publish(&mut self, frame: Vec<u8>)
        ensures
            final(self)@ == published(old(self)@, frame@),
    {
        self.pending = Some(frame);
    }

    /// Removes and returns the pending frame, leaving the slot empty.
    pub fn take(&mut self) -> (r: Option<Vec<u8>>)
        ensures
            frame_view(r) == taken(old(self)@),
            final(self)@ == after_take(old(self)@),
    {
        self.pending.take()
    }

    /// Whether no frame is pending.
    pub fn is_empty(&self) -> (r: bool)
        ensures
            r == (self@ is None),
    {
        self.pending.is_none()
    }
}

} // verus!
