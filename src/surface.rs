use vstd::prelude::*;

use crate::frame_slot::{after_take, frame_view, taken, FrameSlot};
use crate::shared::SharedFrame;

verus! {

/// The destination buffer after a tick on a slot holding `slot`: the taken
/// frame's bytes when one was pending, else the buffer as it was.
pub open spec fn surface_after_tick(slot: Option<Seq<u8>>, dest: Seq<u8>) -> Seq<u8> {
    match taken(slot) {
        Some(frame) => frame,
        None => dest,
    }
}

/// The length of a surface's optional byte store; a missing store counts as
/// empty.
pub open spec fn store_len(data: Option<Vec<u8>>) -> nat {
    match data {
        Some(d) => d@.len(),
        None => 0,
    }
}

/// Why a frame could not be written into the surface.
#[derive(PartialEq, Eq, Structural, Debug, Clone, Copy)]
pub enum SurfaceError {
    /// Growing the destination buffer to the frame's length failed.
    OutOfMemory,
}

/// Makes `dest` hold exactly the bytes of `frame`, resizing it first when the
/// lengths differ.
pub fn copy_frame(dest: &mut Vec<u8>, frame: &[u8])
    ensures
        final(dest)@ == frame@,
{
    let n = frame.len();
    if dest.len() != n {
        dest.resize(n, 0);
    }
    let mut i: usize = 0;
    while i < n
        invariant
            n == frame@.len(),
            dest@.len() == n,
            i <= n,
            forall|j: int| 0 <= j < i ==> dest@[j] == frame@[j],
        decreases n - i,
    {
        dest.set(i, frame[i]);
        i = i + 1;
    }
    assert(dest@ =~= frame@);
}

/// Writes `frame` into a surface's optional byte store, creating an empty
/// store first if there is none.
pub fn apply_frame(data: &mut Option<Vec<u8>>, frame: &[u8])
    ensures
        *final(data) matches Some(d) && d@ == frame@,
{
    let mut buf = match data.take() {
        Some(b) => b,
        None => Vec::new(),
    };
    copy_frame(&mut buf, frame);
    *data = Some(buf);
}

/// One consumer tick: takes the pending frame, if any, and copies it into
/// `dest`. Returns whether a frame was consumed; on an empty slot `dest` is
/// left as it was.
pub fn tick(slot: &mut FrameSlot, dest: &mut Vec<u8>) -> (r: bool)
    ensures
        r == (old(slot)@ is Some),
        final(slot)@ == after_take(old(slot)@),
        final(dest)@ == surface_after_tick(old(slot)@, old(dest)@),
{
    match slot.take() {
        Some(frame) => {
            copy_frame(dest, frame.as_slice());
            true
        },
        None => false,
    }
}

/// Makes `dest` hold exactly the bytes of `frame`, reserving the room first
/// when the frame is longer. If that reservation fails, the error is returned
/// and `dest` is left as it was; no partial resize or copy is committed.
pub fn try_copy_frame(dest: &mut Vec<u8>, frame: &[u8]) -> (r: Result<(), SurfaceError>)
    ensures
        r is Ok ==> final(dest)@ == frame@,
        r is Err ==> final(dest)@ == old(dest)@,
        frame@.len() <= old(dest)@.len() ==> r is Ok,
{
    let n = frame.len();
    if n > dest.len() {
        let extra = n - dest.len();
        match dest.try_reserve(extra) {
            Ok(_) => {},
            Err(_) => {
                return Err(SurfaceError::OutOfMemory);
            },
        }
    }
    copy_frame(dest, frame);
    Ok(())
}

/// Writes `frame` into a surface's optional byte store as `apply_frame` does,
/// but reports a failed resize instead of aborting, with the store unchanged.
pub fn try_apply_frame(data: &mut Option<Vec<u8>>, frame: &[u8]) -> (r: Result<(), SurfaceError>)
    ensures
        r is Ok ==> (*final(data) matches Some(d) && d@ == frame@),
        r is Err ==> frame_view(*final(data)) == frame_view(*old(data)),
        frame@.len() <= store_len(*old(data)) ==> r is Ok,
{
    match data.take() {
        Some(b) => {
            let mut buf = b;
            let r = try_copy_frame(&mut buf, frame);
            *data = Some(buf);
            r
        },
        None => {
            let mut buf: Vec<u8> = Vec::new();
            let r = try_copy_frame(&mut buf, frame);
            if r.is_ok() {
                *data = Some(buf);
            }
            r
        },
    }
}

/// The rest of a consumer tick once the slot has been taken: a taken frame
/// is written into the surface's byte store, and an empty take leaves the
/// store untouched. Returns whether a frame was taken.
pub fn consume(data: &mut Option<Vec<u8>>, taken: Option<Vec<u8>>) -> (r: bool)
    ensures
        r == (taken is Some),
        taken is None ==> *final(data) == *old(data),
        taken matches Some(f) ==> (*final(data) matches Some(d) && d@ == f@),
{
    match taken {
        Some(frame) => {
            apply_frame(data, frame.as_slice());
            true
        },
        None => false,
    }
}

/// As `consume`, but a failed resize is passed on to the caller with the
/// store unchanged; the taken frame is then dropped.
pub fn try_consume(data: &mut Option<Vec<u8>>, taken: Option<Vec<u8>>) -> (r: Result<
    bool,
    SurfaceError,
>)
    ensures
        taken is None ==> r == Ok::<bool, SurfaceError>(false) && *final(data) == *old(data),
        taken matches Some(f) ==> {
            &&& r is Ok ==> r == Ok::<bool, SurfaceError>(true) && (*final(data) matches Some(
                d,
            ) && d@ == f@)
            &&& r is Err ==> frame_view(*final(data)) == frame_view(*old(data))
            &&& f@.len() <= store_len(*old(data)) ==> r is Ok
        },
{
    match taken {
        Some(frame) => {
            match try_apply_frame(data, frame.as_slice()) {
                Ok(_) => Ok(true),
                Err(e) => Err(e),
            }
        },
        None => Ok(false),
    }
}

/// One presentation tick on the shared slot: takes the pending frame under
/// the lock, then copies it into the surface's byte store outside the lock.
/// What the take finds depends on the producer, so only what holds either way
/// is stated here; `consume` says what happens for each outcome.
pub fn upload_frame(shared: &SharedFrame, data: &mut Option<Vec<u8>>) -> (r: bool)
    ensures
        !r ==> *final(data) == *old(data),
        r ==> *final(data) is Some,
{
    consume(data, shared.take())
}

/// As `upload_frame`, but a failed resize is reported for this tick with the
/// store unchanged; `try_consume` says what happens for each outcome.
pub fn try_upload_frame(shared: &SharedFrame, data: &mut Option<Vec<u8>>) -> (r: Result<
    bool,
    SurfaceError,
>)
    ensures
        r == Ok::<bool, SurfaceError>(false) ==> *final(data) == *old(data),
        r == Ok::<bool, SurfaceError>(true) ==> *final(data) is Some,
        r is Err ==> frame_view(*final(data)) == frame_view(*old(data)),
{
    try_consume(data, shared.take())
}

} // verus!
