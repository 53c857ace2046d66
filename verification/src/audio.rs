//! The stream of audio samples that the plugin produces, frame by frame.

use std::sync::mpsc::Receiver;
use vstd::prelude::*;
use crate::handle::receive;

verus! {

/// The samples of the plugin as one stream. Frames arrive over a channel;
/// the stream hands their samples out one at a time and fetches the next
/// frame as soon as one is used up.
pub struct RetroAudio {
    rx: Receiver<Vec<i16>>,
    current_frame: Vec<i16>,
    position: usize,
}

impl RetroAudio {
    #[verifier::type_invariant]
    closed spec fn inv(self) -> bool {
        self.position <= self.current_frame@.len()
    }

    /// The channel that the frames arrive on.
    pub closed spec fn source(&self) -> Receiver<Vec<i16>> {
        self.rx
    }

    /// The samples of the current frame that are still to come.
    pub closed spec fn remaining(&self) -> Seq<i16> {
        self.current_frame@.skip(self.position as int)
    }

    /// The stream of the frames that arrive on `rx`.
    pub fn new(rx: Receiver<Vec<i16>>) -> (r: RetroAudio)
        ensures
            r.source() == rx,
            r.remaining() == Seq::<i16>::empty(),
    {
        let r = RetroAudio { rx, current_frame: Vec::new(), position: 0 };
        assert(r.remaining() =~= Seq::<i16>::empty());
        r
    }

    /// How many samples come before the stream may change its format: what
    /// is left of the current frame, and never less than one.
    pub fn current_frame_len(&self) -> (r: usize)
        ensures
            r == if self.remaining().len() >= 1 {
                self.remaining().len()
            } else {
                1
            },
    {
        proof {
            use_type_invariant(self);
        }
        let left = self.current_frame.len() - self.position;
        if left >= 1 {
            left
        } else {
            1
        }
    }

    /// The number of channels: two, left and right.
    pub fn channels(&self) -> (r: u16)
        ensures
            r == 2,
    {
        2
    }

    /// Takes the next sample of the current frame, if one is left.
    pub fn pop(&mut self) -> (r: Option<i16>)
        ensures
            match r {
                Some(sample) => old(self).remaining().len() > 0 && sample == old(self).remaining()[0] && final(self).remaining() == old(self).remaining().drop_first(),
                None => old(self).remaining().len() == 0 && final(self).remaining() == old(self).remaining(),
            },
            final(self).source() == old(self).source(),
    {
        proof {
            use_type_invariant(&*self);
        }
        if self.position < self.current_frame.len() {
            let sample = self.current_frame[self.position];
            self.position = self.position + 1;
            assert(self.remaining() =~= old(self).remaining().drop_first());
            Some(sample)
        } else {
            None
        }
    }

    /// Puts `frame` in the place of the current frame.
    pub fn refill(&mut self, frame: Vec<i16>)
        ensures
            final(self).remaining() == frame@,
            final(self).source() == old(self).source(),
    {
        self.position = 0;
        self.current_frame = frame;
        assert(self.remaining() =~= frame@);
    }

    /// The next sample of the stream. Waits for a frame where the current
    /// one is used up, before the sample is taken or after. `None` once the
    /// sender of the frames is gone.
    ///
    /// While more than one sample is left, the stream hands out the first of
    /// them and the rest stays. The last sample of a frame is handed out
    /// only if another frame arrives.
    pub fn next(&mut self) -> (r: Option<i16>)
        ensures
            old(self).remaining().len() >= 2 ==> r == Some(old(self).remaining()[0]) && final(self).remaining() == old(self).remaining().drop_first(),
            old(self).remaining().len() == 1 ==> r is None || r == Some(old(self).remaining()[0]),
            final(self).source() == old(self).source(),
    {
        let sample = match self.pop() {
            Some(sample) => Some(sample),
            None => {
                match receive(&self.rx) {
                    Some(frame) => {
                        self.refill(frame);
                    },
                    None => {
                        return None;
                    },
                }
                self.pop()
            },
        };
        proof {
            use_type_invariant(&*self);
            assert(self.remaining().len() == self.current_frame@.len() - self.position);
        }
        if self.position == self.current_frame.len() {
            match receive(&self.rx) {
                Some(frame) => {
                    self.refill(frame);
                },
                None => {
                    return None;
                },
            }
        }
        sample
    }
}

} // verus!
