//! Consumer side of the pull-based audio bridge: an iterator-shaped source
//! that requests one stereo sample at a time from the core thread over the
//! request/response channel pair and hands the words out one by one.

use vstd::prelude::*;

use crate::channel::{channel_recv, channel_send};

verus! {

/// Number of interleaved channels a stereo sample carries.
pub const CHANNELS: u16 = 2;

/// Pull-driven sample source.
///
/// Holds at most one stereo sample's words; when empty, it sends one request
/// token and blocks on the response, so every word handed out is covered by
/// exactly one request.
pub struct SoundSource {
    sample: Vec<i16>,
    sample_req_tx: kanal::Sender<()>,
    sample_rec_rx: kanal::Receiver<(i16, i16)>,
}

impl SoundSource {
    /// The buffered words not yet handed out.
    pub closed spec fn spec_buffer(self) -> Seq<i16> {
        self.sample@
    }

    pub fn new(sample_req_tx: kanal::Sender<()>, sample_rec_rx: kanal::Receiver<(i16, i16)>) -> (s:
        SoundSource)
        ensures
            s.spec_buffer().len() == 0,
    {
        SoundSource { sample: Vec::new(), sample_req_tx, sample_rec_rx }
    }

    /// The next audio word. A non-empty buffer is drained newest-word first
    /// without touching the channels; an empty buffer first sends exactly
    /// one request and stores whatever stereo pair the response carries, so
    /// a live channel always yields a word and only a closed one ends the
    /// stream.
    pub fn next_sample(&mut self) -> (r: Option<i16>)
        ensures
            old(self).spec_buffer().len() > 0 ==> r == Some(old(self).spec_buffer().last())
                && final(self).spec_buffer() == old(self).spec_buffer().drop_last(),
            old(self).spec_buffer().len() == 0 ==> ((r is None && final(self).spec_buffer().len()
                == 0) || (exists|l: i16, rt: i16|
                r == Some(rt) && final(self).spec_buffer() == seq![l])),
    {
        if self.sample.len() == 0 {
            let _ = channel_send(&self.sample_req_tx, ());
            match channel_recv(&self.sample_rec_rx) {
                Some((l, rt)) => {
                    self.sample.push(l);
                    self.sample.push(rt);
                },
                None => {},
            }
        }
        let r = self.sample.pop();
        proof {
            if old(self).spec_buffer().len() == 0 && r is Some {
                let l = self.sample@[0];
                assert(final(self).spec_buffer() =~= seq![l]);
            }
        }
        r
    }
}

} // verus!
