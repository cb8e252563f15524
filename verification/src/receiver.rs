//! Reassembly of telemetry frames from the bytes of the serial stream.
//!
//! The receiver keeps one slot for each kind of byte. A byte goes into the
//! slot of its kind, replacing what was there. As soon as both slots are
//! filled the frame is decoded and handed out, and both slots are cleared.
//! A read that timed out brings no byte and changes nothing.

use vstd::prelude::*;
use crate::telemetry::{assemble, assembled, byte_kind, frame_of, kind_of, ByteKind, TelemetryFrame};

verus! {

/// What the receiver holds between two bytes: the newest byte of each kind
/// that arrived since the last frame.
pub struct Slots {
    pub first: Option<u8>,
    pub second: Option<u8>,
}

impl Slots {
    /// Both slots empty.
    pub open spec fn empty() -> Slots {
        Slots { first: None, second: None }
    }

    /// Each slot holds only a byte of its own kind, and the two are never
    /// filled at once.
    pub open spec fn wf(self) -> bool {
        &&& self.first matches Some(byte) ==> kind_of(byte) == ByteKind::First
        &&& self.second matches Some(byte) ==> kind_of(byte) == ByteKind::Second
        &&& !(self.first is Some && self.second is Some)
    }

    /// The slots with `byte` put into the slot of its kind.
    pub open spec fn store(self, byte: u8) -> Slots {
        if kind_of(byte) == ByteKind::First {
            Slots { first: Some(byte), second: self.second }
        } else {
            Slots { first: self.first, second: Some(byte) }
        }
    }

    /// Both slots are filled.
    pub open spec fn is_full(self) -> bool {
        self.first is Some && self.second is Some
    }

    /// The frame that `byte` completes, if it completes one.
    pub open spec fn published(self, byte: u8) -> Option<TelemetryFrame> {
        let stored = self.store(byte);
        if stored.is_full() {
            Some(frame_of(assembled(stored.first->0, stored.second->0)))
        } else {
            None
        }
    }

    /// The slots after `byte` has been received: cleared if it completed a
    /// frame, else with `byte` stored.
    pub open spec fn after(self, byte: u8) -> Slots {
        let stored = self.store(byte);
        if stored.is_full() {
            Slots::empty()
        } else {
            stored
        }
    }

    /// The slots after all of `bytes` have been received, in their order.
    pub open spec fn after_all(self, bytes: Seq<u8>) -> Slots
        decreases bytes.len(),
    {
        if bytes.len() == 0 {
            self
        } else {
            self.after_all(bytes.drop_last()).after(bytes.last())
        }
    }
}

/// The receiver's state: the bytes of the frame that is being assembled.
pub struct FrameAssembler {
    first: Option<u8>,
    second: Option<u8>,
}

impl View for FrameAssembler {
    type V = Slots;

    closed spec fn view(&self) -> Slots {
        Slots { first: self.first, second: self.second }
    }
}

impl FrameAssembler {
    /// Holds of every assembler: see `Slots::wf`.
    #[verifier::type_invariant]
    spec fn well_formed(self) -> bool {
        self@.wf()
    }

    /// A receiver that has seen no byte yet.
    pub fn new() -> (assembler: Self)
        ensures
            assembler@ == Slots::empty(),
    {
        FrameAssembler { first: None, second: None }
    }

    /// The bytes that wait for their counterpart. At most one of the two is
    /// there, and each is of the kind of its slot.
    pub fn pending(&self) -> (slots: (Option<u8>, Option<u8>))
        ensures
            slots.0 == self@.first,
            slots.1 == self@.second,
            self@.wf(),
    {
        proof {
            use_type_invariant(self);
        }
        (self.first, self.second)
    }

    /// Takes one byte from the stream. Hands out the frame that the byte
    /// completes, if it completes one.
    pub fn push(&mut self, byte: u8) -> (frame: Option<TelemetryFrame>)
        ensures
            frame == old(self)@.published(byte),
            final(self)@ == old(self)@.after(byte),
    {
        proof {
            use_type_invariant(&*self);
        }
        let (first, second) = match byte_kind(byte) {
            ByteKind::First => (Some(byte), self.second),
            ByteKind::Second => (self.first, Some(byte)),
        };
        match (first, second) {
            (Some(high), Some(low)) => {
                *self = FrameAssembler { first: None, second: None };
                Some(TelemetryFrame::from_word(assemble(high, low)))
            },
            _ => {
                *self = FrameAssembler { first, second };
                None
            },
        }
    }

    /// Takes the outcome of one read from the stream: a byte, or nothing
    /// when the read timed out. A timeout is no error and changes nothing.
    pub fn on_read(&mut self, read: Option<u8>) -> (frame: Option<TelemetryFrame>)
        ensures
            read matches Some(byte) ==> frame == old(self)@.published(byte) && final(self)@
                == old(self)@.after(byte),
            read is None ==> frame is None && final(self)@ == old(self)@,
    {
        match read {
            Some(byte) => self.push(byte),
            None => None,
        }
    }
}

/// Receiving keeps the slots well formed.
pub proof fn lemma_after_is_wf(slots: Slots, byte: u8)
    requires
        slots.wf(),
    ensures
        slots.after(byte).wf(),
{
}

/// A byte completes a frame exactly when a byte of the other kind waits,
/// and the frame is made of those two bytes, each in its place.
pub proof fn lemma_published_iff_counterpart(slots: Slots, byte: u8)
    requires
        slots.wf(),
    ensures
        kind_of(byte) == ByteKind::First ==> slots.published(byte) == match slots.second {
            Some(low) => Some(frame_of(assembled(byte, low))),
            None => None,
        },
        kind_of(byte) == ByteKind::Second ==> slots.published(byte) == match slots.first {
            Some(high) => Some(frame_of(assembled(high, byte))),
            None => None,
        },
        slots.published(byte) is Some <==> slots.after(byte) == Slots::empty(),
{
}

/// Only the newest byte of a kind counts: when two bytes of one kind arrive
/// with no frame in between, the older one is forgotten.
pub proof fn lemma_newest_byte_wins(slots: Slots, older: u8, newer: u8)
    requires
        slots.wf(),
        kind_of(older) == kind_of(newer),
        slots.published(older) is None,
    ensures
        slots.after(older).after(newer) == slots.after(newer),
        slots.after(older).published(newer) == slots.published(newer),
{
}

/// However long a run of bytes of one kind is, only its newest byte is
/// kept: after the run the slots hold that byte and nothing else, and the
/// first byte of the other kind completes a frame with it.
pub proof fn lemma_run_of_one_kind(run: Seq<u8>, closing: u8)
    requires
        run.len() > 0,
        forall|i: int| 0 <= i < run.len() ==> kind_of(#[trigger] run[i]) != kind_of(closing),
    ensures
        Slots::empty().after_all(run) == Slots::empty().store(run.last()),
        Slots::empty().after_all(run).published(closing) == if kind_of(closing)
            == ByteKind::Second {
            Some(frame_of(assembled(run.last(), closing)))
        } else {
            Some(frame_of(assembled(closing, run.last())))
        },
        Slots::empty().after_all(run).after(closing) == Slots::empty(),
    decreases run.len(),
{
    let earlier = run.drop_last();
    if earlier.len() == 0 {
        assert(Slots::empty().after_all(earlier) == Slots::empty());
    } else {
        assert forall|i: int| 0 <= i < earlier.len() implies kind_of(#[trigger] earlier[i])
            != kind_of(closing) by {
            assert(earlier[i] == run[i]);
        }
        lemma_run_of_one_kind(earlier, closing);
        assert(kind_of(earlier.last()) == kind_of(run.last())) by {
            assert(earlier.last() == run[run.len() - 2]);
        }
    }
}

/// The two bytes of a frame may arrive in either order: from empty slots
/// each order hands out the same frame with the second of the two bytes,
/// and leaves the slots empty.
pub proof fn lemma_either_order(high: u8, low: u8)
    requires
        kind_of(high) == ByteKind::First,
        kind_of(low) == ByteKind::Second,
    ensures
        Slots::empty().published(high) is None,
        Slots::empty().published(low) is None,
        Slots::empty().after(high).published(low) == Some(frame_of(assembled(high, low))),
        Slots::empty().after(low).published(high) == Some(frame_of(assembled(high, low))),
        Slots::empty().after(high).after(low) == Slots::empty(),
        Slots::empty().after(low).after(high) == Slots::empty(),
{
}

} // verus!
