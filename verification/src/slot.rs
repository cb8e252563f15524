//! The slot through which the receiver hands the latest reading to the
//! control loop.
//!
//! The slot holds one whole frame. Publishing replaces it; reading copies it
//! and leaves it in place. No history is kept. Between its two users the
//! slot is kept under a lock, so that their accesses take turns: whatever
//! the turns, a reader sees a frame exactly as it was published.

use vstd::prelude::*;
use crate::telemetry::{frame_of, TelemetryFrame};

verus! {

/// Holds the latest reading.
#[derive(Clone, Copy, Debug)]
pub struct TelemetrySlot {
    latest: TelemetryFrame,
}

impl View for TelemetrySlot {
    type V = TelemetryFrame;

    closed spec fn view(&self) -> TelemetryFrame {
        self.latest
    }
}

impl TelemetrySlot {
    /// A slot that holds the reading of before anything was received.
    pub fn new() -> (slot: Self)
        ensures
            slot@ == frame_of(0),
    {
        TelemetrySlot { latest: TelemetryFrame::new() }
    }

    /// Replaces the reading in the slot.
    pub fn publish(&mut self, frame: TelemetryFrame)
        ensures
            final(self)@ == frame,
    {
        self.latest = frame;
    }

    /// A copy of the reading in the slot.
    pub fn latest(&self) -> (frame: TelemetryFrame)
        ensures
            frame == self@,
    {
        self.latest
    }
}

/// One access to the slot.
pub enum Access {
    /// The receiver publishes this frame.
    Publish(TelemetryFrame),
    /// The control loop reads the slot.
    Read,
}

/// The reading in a slot that held `initial` and then went through
/// `accesses`, in their order.
pub open spec fn held_after(initial: TelemetryFrame, accesses: Seq<Access>) -> TelemetryFrame
    decreases accesses.len(),
{
    if accesses.len() == 0 {
        initial
    } else {
        match accesses.last() {
            Access::Publish(frame) => frame,
            Access::Read => held_after(initial, accesses.drop_last()),
        }
    }
}

/// What the access at place `at` sees in the slot: what the accesses before
/// it have left there.
pub open spec fn seen_at(initial: TelemetryFrame, accesses: Seq<Access>, at: int) -> TelemetryFrame {
    held_after(initial, accesses.take(at))
}

/// No reader sees a torn frame. However publishing and reading take turns,
/// what a read sees is one frame as a whole: the one published last before
/// it, or the initial one if none was published yet.
pub proof fn lemma_reads_see_whole_frames(initial: TelemetryFrame, accesses: Seq<Access>, at: int)
    requires
        0 <= at <= accesses.len(),
    ensures
        ({
            let seen = seen_at(initial, accesses, at);
            ||| seen == initial && forall|i: int| 0 <= i < at ==> accesses[i] is Read
            ||| exists|i: int|
                0 <= i < at && accesses[i] == Access::Publish(seen) && forall|j: int|
                    i < j < at ==> accesses[j] is Read
        }),
    decreases at,
{
    let before = accesses.take(at);
    if at > 0 {
        match before.last() {
            Access::Publish(frame) => {
                assert(accesses[at - 1] == Access::Publish(frame));
            },
            Access::Read => {
                lemma_reads_see_whole_frames(initial, accesses, at - 1);
                assert(before.drop_last() =~= accesses.take(at - 1));
                let seen = seen_at(initial, accesses, at);
                assert(seen == seen_at(initial, accesses, at - 1));
                if !(seen == initial && forall|i: int| 0 <= i < at - 1 ==> accesses[i] is Read) {
                    let i = choose|i: int|
                        0 <= i < at - 1 && accesses[i] == Access::Publish(seen) && forall|j: int|
                            i < j < at - 1 ==> accesses[j] is Read;
                    assert(0 <= i < at && accesses[i] == Access::Publish(seen) && forall|j: int|
                        i < j < at ==> accesses[j] is Read);
                }
            },
        }
    }
}

} // verus!
