use vstd::prelude::*;

use crate::frame_slot::{frame_view, published, FrameSlot};

verus! {

/// A status message from the decoding pipeline's bus, reduced to what the
/// producer decides on.
pub enum BusMessage {
    /// The pipeline reported an error; it stops delivering frames.
    Error,
    /// Some element changed state; `from_pipeline` tells whether it was the
    /// pipeline itself.
    StateChanged { from_pipeline: bool },
    /// Anything else.
    Other,
}

/// What the producer's worker does after a bus message.
#[derive(PartialEq, Eq, Structural, Debug, Clone, Copy)]
pub enum BusStep {
    /// Report the pipeline error and keep waiting.
    ReportError,
    /// Report the pipeline's new state and keep waiting.
    ReportState,
    /// Keep waiting.
    Wait,
    /// Leave the wait loop and shut the pipeline down.
    Finish,
}

/// The producer's worker state, observable from outside.
#[derive(PartialEq, Eq, Structural, Debug, Clone, Copy)]
pub struct ProducerState {
    /// The pipeline reported an error: no further frames are expected.
    pub stalled: bool,
    /// A stop was requested: the worker leaves at its next wait.
    pub stop_requested: bool,
}

/// The state and step that follow a bus message.
pub open spec fn bus_transition(s: ProducerState, msg: BusMessage) -> (ProducerState, BusStep) {
    if s.stop_requested {
        (s, BusStep::Finish)
    } else {
        match msg {
            BusMessage::Error => (ProducerState { stalled: true, ..s }, BusStep::ReportError),
            BusMessage::StateChanged { from_pipeline } => (
                s,
                if from_pipeline {
                    BusStep::ReportState
                } else {
                    BusStep::Wait
                },
            ),
            BusMessage::Other => (s, BusStep::Wait),
        }
    }
}

/// The state after a stop request.
pub open spec fn stopped(s: ProducerState) -> ProducerState {
    ProducerState { stop_requested: true, ..s }
}

impl ProducerState {
    /// A worker that has just started its pipeline.
    pub fn new() -> (s: ProducerState)
        ensures
            !s.stalled,
            !s.stop_requested,
    {
        ProducerState { stalled: false, stop_requested: false }
    }

    /// Decides what to do with one bus message; a stop request takes
    /// precedence over every message.
    pub fn on_bus_message(&mut self, msg: &BusMessage) -> (r: BusStep)
        ensures
            (*final(self), r) == bus_transition(*old(self), *msg),
    {
        if self.stop_requested {
            BusStep::Finish
        } else {
            match msg {
                BusMessage::Error => {
                    self.stalled = true;
                    BusStep::ReportError
                },
                BusMessage::StateChanged { from_pipeline } => {
                    if *from_pipeline {
                        BusStep::ReportState
                    } else {
                        BusStep::Wait
                    }
                },
                BusMessage::Other => BusStep::Wait,
            }
        }
    }

    /// Asks the worker to stop; asking again changes nothing.
    pub fn request_stop(&mut self)
        ensures
            *final(self) == stopped(*old(self)),
    {
        self.stop_requested = true;
    }

    /// Whether the worker should stop waiting on the bus.
    pub fn should_finish(&self) -> (r: bool)
        ensures
            r == self.stop_requested,
    {
        self.stop_requested
    }
}

/// Hands one delivery to the slot: the extracted bytes are published, and a
/// delivery whose bytes could not be extracted is skipped, leaving the slot
/// as it was. Returns whether a frame was published.
pub fn deliver(slot: &mut FrameSlot, extracted: Option<Vec<u8>>) -> (r: bool)
    ensures
        r == (extracted is Some),
        final(slot)@ == match frame_view(extracted) {
            Some(f) => published(old(slot)@, f),
            None => old(slot)@,
        },
{
    match extracted {
        Some(frame) => {
            slot.publish(frame);
            true
        },
        None => false,
    }
}

} // verus!
