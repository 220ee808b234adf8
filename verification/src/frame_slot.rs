//! The intended contract of the display channel, as a verified model: a
//! capacity-one, latest-value-wins slot. Publishing overwrites whatever
//! undelivered frame is still in the slot, the producer never blocks, and a
//! reader only ever takes the most recently published frame — never an older
//! one after a newer one exists.

use vstd::prelude::*;

verus! {

/// A single-slot latest-wins mailbox for frame buffers, with the ghost
/// history of everything ever published.
pub struct FrameSlot {
    latest: Option<Vec<u8>>,
    history: Ghost<Seq<Seq<u8>>>,
}

impl FrameSlot {
    /// Every frame ever published, in production order.
    pub closed spec fn spec_history(self) -> Seq<Seq<u8>> {
        self.history@
    }

    /// The undelivered frame currently in the slot, if any.
    pub closed spec fn spec_latest(self) -> Option<Seq<u8>> {
        match self.latest {
            Some(f) => Some(f@),
            None => None,
        }
    }

    /// Whatever sits in the slot is the newest frame ever published.
    pub closed spec fn wf(self) -> bool {
        match self.latest {
            Some(f) => self.history@.len() > 0 && f@ == self.history@.last(),
            None => true,
        }
    }

    pub fn new() -> (s: FrameSlot)
        ensures
            s.wf(),
            s.spec_history().len() == 0,
            s.spec_latest() is None,
    {
        FrameSlot { latest: None, history: Ghost(Seq::empty()) }
    }

    /// Publish a frame: it supersedes any undelivered one and goes on the
    /// history; the producer never waits.
    pub fn publish(&mut self, frame: Vec<u8>)
        requires
            old(self).wf(),
        ensures
            final(self).wf(),
            final(self).spec_history() == old(self).spec_history().push(frame@),
            final(self).spec_latest() == Some(frame@),
    {
        proof {
            self.history@ = self.history@.push(frame@);
        }
        self.latest = Some(frame);
    }

    /// Take the pending frame, if any: always the most recently published
    /// one, and never anything after the slot was drained — no older frame
    /// can ever be observed once a newer one was published.
    pub fn take(&mut self) -> (r: Option<Vec<u8>>)
        requires
            old(self).wf(),
        ensures
            final(self).wf(),
            final(self).spec_history() == old(self).spec_history(),
            final(self).spec_latest() is None,
            r matches Some(f) ==> old(self).spec_history().len() > 0 && f@ == old(
                self,
            ).spec_history().last(),
            r is Some <==> old(self).spec_latest() is Some,
    {
        self.latest.take()
    }
}

/// Latest-wins law: a reader of a well-formed slot can only ever observe the
/// last frame of the publication history, so no older frame is observed
/// after a newer one has been published.
pub proof fn lemma_latest_wins(s: FrameSlot, f: Seq<u8>)
    requires
        s.wf(),
        s.spec_latest() == Some(f),
    ensures
        s.spec_history().len() > 0,
        f == s.spec_history().last(),
{
}

} // verus!
