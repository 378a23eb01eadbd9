//! The conduit between the producer of frames and their consumer: one
//! place, and the newest frame wins.
//!
//! The producer never waits. A frame that is offered while another is still
//! pending takes its place, so the consumer always takes the most recent
//! frame and no backlog builds up.

use vstd::prelude::*;

verus! {

/// A conduit with room for one frame.
pub struct FrameSlot<T> {
    pending: Option<T>,
}

impl<T> View for FrameSlot<T> {
    type V = Option<T>;

    /// The pending frame, if there is one.
    closed spec fn view(&self) -> Option<T> {
        self.pending
    }
}

/// The number of frames that a conduit holds.
pub open spec fn queued<T>(slot: Option<T>) -> nat {
    if slot is Some { 1 } else { 0 }
}

/// The conduit after `frame` was offered, and the frame that it
/// displaced, if one was pending.
pub open spec fn offer_spec<T>(slot: Option<T>, frame: T) -> (Option<T>, Option<T>) {
    (Some(frame), slot)
}

/// The conduit after a take, and the frame that was taken, if one was
/// pending.
pub open spec fn take_spec<T>(slot: Option<T>) -> (Option<T>, Option<T>) {
    (None, slot)
}

/// The conduit after `frames` were offered one after the other with no
/// frame taken in between, and the frames that were discarded on the way,
/// in the order in which they were discarded.
pub open spec fn offer_all<T>(slot: Option<T>, frames: Seq<T>) -> (Option<T>, Seq<T>)
    decreases frames.len(),
{
    if frames.len() == 0 {
        (slot, Seq::empty())
    } else {
        let (before, discarded) = offer_all(slot, frames.drop_last());
        let (after, displaced) = offer_spec(before, frames.last());
        (
            after,
            match displaced {
                Some(old) => discarded.push(old),
                None => discarded,
            },
        )
    }
}

impl<T> FrameSlot<T> {
    /// An empty conduit.
    pub fn new() -> (slot: FrameSlot<T>)
        ensures
            slot@ is None,
    {
        FrameSlot { pending: None }
    }

    /// Puts `frame` into the conduit and returns the frame that it
    /// displaced, if one was pending. The producer's side: it never waits.
    pub fn offer(&mut self, frame: T) -> (displaced: Option<T>)
        ensures
            (final(self)@, displaced) == offer_spec(old(self)@, frame),
    {
        let displaced: Option<T> = self.pending.take();
        self.pending = Some(frame);
        displaced
    }

    /// Takes the pending frame out, if there is one. The consumer's side.
    pub fn take(&mut self) -> (frame: Option<T>)
        ensures
            (final(self)@, frame) == take_spec(old(self)@),
    {
        self.pending.take()
    }

    /// The number of frames in the conduit: none or one.
    pub fn len(&self) -> (n: usize)
        ensures
            n == queued(self@),
            n <= 1,
    {
        if self.pending.is_some() { 1 } else { 0 }
    }

    /// Tells whether no frame is pending.
    pub fn is_empty(&self) -> (b: bool)
        ensures
            b == (self@ is None),
    {
        self.pending.is_none()
    }
}

/// However many frames are offered faster than they are taken, the conduit
/// holds one frame at most: the last that was offered. Every frame before
/// it was discarded when the next one arrived, and so was the frame that
/// was pending at the start.
pub proof fn lemma_newest_frame_wins<T>(slot: Option<T>, frames: Seq<T>)
    requires
        frames.len() > 0,
    ensures
        queued(offer_all(slot, frames).0) == 1,
        offer_all(slot, frames).0 == Some(frames.last()),
        offer_all(slot, frames).1 == match slot {
            Some(old) => seq![old] + frames.drop_last(),
            None => frames.drop_last(),
        },
    decreases frames.len(),
{
    let earlier = frames.drop_last();
    if earlier.len() == 0 {
        assert(offer_all(slot, earlier) == (slot, Seq::<T>::empty()));
        match slot {
            Some(old) => {
                assert(Seq::<T>::empty().push(old) == seq![old] + earlier);
            },
            None => {
                assert(Seq::<T>::empty() == earlier);
            },
        }
    } else {
        lemma_newest_frame_wins(slot, earlier);
        assert(earlier.drop_last().push(earlier.last()) == earlier);
        match slot {
            Some(old) => {
                assert((seq![old] + earlier.drop_last()).push(earlier.last()) == seq![old]
                    + earlier);
            },
            None => {},
        }
    }
}

/// The conduit never holds more than one frame, whatever is offered and
/// taken.
pub proof fn lemma_at_most_one_queued<T>(slot: Option<T>, frame: T, frames: Seq<T>)
    ensures
        queued(slot) <= 1,
        queued(offer_spec(slot, frame).0) == 1,
        queued(take_spec(slot).0) == 0,
        queued(offer_all(slot, frames).0) <= 1,
{
}

/// What is taken after several frames were offered is the last of them;
/// the conduit is empty afterwards.
pub proof fn lemma_take_yields_newest<T>(slot: Option<T>, frames: Seq<T>)
    requires
        frames.len() > 0,
    ensures
        take_spec(offer_all(slot, frames).0) == (None::<T>, Some(frames.last())),
{
    lemma_newest_frame_wins(slot, frames);
}

} // verus!
