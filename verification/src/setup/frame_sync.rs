//! Fences and semaphores of the frames in flight, as the submitting thread
//! knows them.

use vstd::prelude::*;

verus! {

/// State of a fence or of a binary semaphore.
#[derive(Clone, Copy, Debug, PartialEq, Eq, Structural)]
pub enum Signal {
    Unsignaled,
    Signaled,
}

/// The synchronisation objects of one frame in flight.
#[derive(Clone, Copy, Debug, PartialEq, Eq, Structural)]
pub struct FrameSlot {
    /// Signaled by image acquisition, waited on by the submission.
    pub image_available: Signal,
    /// Signaled by the submission, waited on by the presentation.
    pub render_finished: Signal,
    /// Signaled when the submitted work of this slot has completed.
    pub in_flight: Signal,
}

/// One slot per frame in flight, indexed by the frame index.
pub struct FrameSyncData {
    pub slots: Vec<FrameSlot>,
}

/// A slot nothing has been submitted on: the fence starts out signaled so
/// that the first wait on it returns at once.
pub open spec fn idle_slot() -> FrameSlot {
    FrameSlot {
        image_available: Signal::Unsignaled,
        render_finished: Signal::Unsignaled,
        in_flight: Signal::Signaled,
    }
}

/// Number of slots whose fence is unsignaled, that is, whose submitted work
/// has not been seen to complete.
pub open spec fn unsignaled_fences(slots: Seq<FrameSlot>) -> nat
    decreases slots.len(),
{
    if slots.len() == 0 {
        0
    } else {
        unsignaled_fences(slots.drop_last()) + if slots.last().in_flight is Unsignaled {
            1nat
        } else {
            0nat
        }
    }
}

/// No more fences are unsignaled than there are slots.
pub proof fn lemma_unsignaled_fences_bounded(slots: Seq<FrameSlot>)
    ensures
        unsignaled_fences(slots) <= slots.len(),
    decreases slots.len(),
{
    if slots.len() > 0 {
        lemma_unsignaled_fences_bounded(slots.drop_last());
    }
}

/// Replacing one slot changes the count by that slot's fence alone.
pub proof fn lemma_unsignaled_fences_update(slots: Seq<FrameSlot>, i: int, slot: FrameSlot)
    requires
        0 <= i < slots.len(),
    ensures
        unsignaled_fences(slots.update(i, slot)) + (if slots[i].in_flight is Unsignaled {
            1nat
        } else {
            0nat
        }) == unsignaled_fences(slots) + (if slot.in_flight is Unsignaled {
            1nat
        } else {
            0nat
        }),
    decreases slots.len(),
{
    let updated = slots.update(i, slot);
    if i == slots.len() - 1 {
        assert(updated.drop_last() =~= slots.drop_last());
    } else {
        lemma_unsignaled_fences_update(slots.drop_last(), i, slot);
        assert(updated.drop_last() =~= slots.drop_last().update(i, slot));
    }
}

/// Where every fence is signaled, none is counted.
pub proof fn lemma_unsignaled_fences_none(slots: Seq<FrameSlot>)
    requires
        forall|i: int| 0 <= i < slots.len() ==> (#[trigger] slots[i]).in_flight is Signaled,
    ensures
        unsignaled_fences(slots) == 0,
    decreases slots.len(),
{
    if slots.len() > 0 {
        lemma_unsignaled_fences_none(slots.drop_last());
    }
}

/// Synchronisation state for `max_frames_in_flight` frames, before anything
/// has been submitted.
pub fn create(max_frames_in_flight: usize) -> (data: FrameSyncData)
    ensures
        data.slots@ == Seq::new(max_frames_in_flight as nat, |i: int| idle_slot()),
{
    let mut slots: Vec<FrameSlot> = Vec::new();
    let mut i: usize = 0;
    while i < max_frames_in_flight
        invariant
            i <= max_frames_in_flight,
            slots@ == Seq::new(i as nat, |j: int| idle_slot()),
        decreases max_frames_in_flight - i,
    {
        slots.push(
            FrameSlot {
                image_available: Signal::Unsignaled,
                render_finished: Signal::Unsignaled,
                in_flight: Signal::Signaled,
            },
        );
        i = i + 1;
    }
    FrameSyncData { slots }
}

} // verus!
