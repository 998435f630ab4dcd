//! A finite source of audio samples.
//!
//! The queue consumes abstract sample producers; here such a producer is a
//! buffer of samples that are handed out one at a time, together with the
//! stream properties it reports: channel count, sample rate, and an optional
//! frame length.

use vstd::prelude::*;

verus! {

/// Mathematical view of a sample source: the samples it has yet to produce,
/// together with the stream properties it reports.
#[verifier::ext_equal]
pub struct SourceModel {
    pub channels: u16,
    pub sample_rate: u32,
    pub remaining: Seq<i16>,
    pub frame_len: Option<usize>,
}

/// A source of signed 16-bit audio samples, drained from the front one
/// sample per request.
pub struct SampleSource {
    channels: u16,
    sample_rate: u32,
    data: Vec<i16>,
    pos: usize,
    frame_len: Option<usize>,
}

impl View for SampleSource {
    type V = SourceModel;

    closed spec fn view(&self) -> SourceModel {
        SourceModel {
            channels: self.channels,
            sample_rate: self.sample_rate,
            remaining: if self.pos <= self.data.len() {
                self.data@.subrange(self.pos as int, self.data.len() as int)
            } else {
                Seq::empty()
            },
            frame_len: self.frame_len,
        }
    }
}

impl SampleSource {
    /// A source that produces the given samples in order and reports no
    /// frame length of its own.
    pub fn new(channels: u16, sample_rate: u32, data: Vec<i16>) -> (r: Self)
        requires
            channels >= 1,
            sample_rate >= 1,
        ensures
            r@ == (SourceModel {
                channels,
                sample_rate,
                remaining: data@,
                frame_len: None::<usize>,
            }),
    {
        let ghost d = data@;
        let r = SampleSource { channels, sample_rate, data, pos: 0, frame_len: None };
        proof {
            assert(r@.remaining =~= d);
        }
        r
    }

    /// A source that additionally reports the given frame length.
    pub fn with_frame_len(
        channels: u16,
        sample_rate: u32,
        data: Vec<i16>,
        frame_len: Option<usize>,
    ) -> (r: Self)
        requires
            channels >= 1,
            sample_rate >= 1,
        ensures
            r@ == (SourceModel { channels, sample_rate, remaining: data@, frame_len }),
    {
        let ghost d = data@;
        let r = SampleSource { channels, sample_rate, data, pos: 0, frame_len };
        proof {
            assert(r@.remaining =~= d);
        }
        r
    }

    /// A source that produces `len` zero-valued samples.
    pub fn silence(channels: u16, sample_rate: u32, len: usize) -> (r: Self)
        requires
            channels >= 1,
            sample_rate >= 1,
        ensures
            r@ == (SourceModel {
                channels,
                sample_rate,
                remaining: Seq::new(len as nat, |i: int| 0i16),
                frame_len: None::<usize>,
            }),
    {
        let mut data: Vec<i16> = Vec::new();
        let mut i: usize = 0;
        while i < len
            invariant
                i == data@.len(),
                i <= len,
                forall|j: int| 0 <= j < i ==> data@[j] == 0i16,
            decreases len - i,
        {
            data.push(0i16);
            i = i + 1;
        }
        let ghost d = data@;
        let r = SampleSource { channels, sample_rate, data, pos: 0, frame_len: None };
        proof {
            assert(r@.remaining =~= d);
            assert(d =~= Seq::new(len as nat, |i: int| 0i16));
        }
        r
    }

    /// A source that produces nothing at all.
    pub fn empty() -> (r: Self)
        ensures
            r@ == (SourceModel {
                channels: 1u16,
                sample_rate: 48000u32,
                remaining: Seq::<i16>::empty(),
                frame_len: None::<usize>,
            }),
    {
        let r = SampleSource {
            channels: 1,
            sample_rate: 48000,
            data: Vec::new(),
            pos: 0,
            frame_len: None,
        };
        proof {
            assert(r@.remaining =~= Seq::<i16>::empty());
        }
        r
    }

    /// The channel count this source reports.
    pub fn channels(&self) -> (r: u16)
        ensures
            r == self@.channels,
    {
        self.channels
    }

    /// The sample rate this source reports.
    pub fn sample_rate(&self) -> (r: u32)
        ensures
            r == self@.sample_rate,
    {
        self.sample_rate
    }

    /// The frame length this source reports, if any.
    pub fn frame_len(&self) -> (r: Option<usize>)
        ensures
            r == self@.frame_len,
    {
        self.frame_len
    }

    /// How many samples this source has yet to produce.
    pub fn remaining_len(&self) -> (r: usize)
        ensures
            r == self@.remaining.len(),
    {
        if self.pos <= self.data.len() {
            self.data.len() - self.pos
        } else {
            0
        }
    }

    /// Produces the next sample, or nothing once the source is exhausted.
    pub fn next(&mut self) -> (r: Option<i16>)
        ensures
            old(self)@.remaining.len() > 0 ==> r == Some(old(self)@.remaining[0])
                && final(self)@ == (SourceModel {
                    remaining: old(self)@.remaining.drop_first(),
                    ..old(self)@
                }),
            old(self)@.remaining.len() == 0 ==> r == None::<i16> && final(self)@ == old(self)@,
    {
        if self.pos < self.data.len() {
            let s = self.data[self.pos];
            self.pos = self.pos + 1;
            proof {
                assert(self@.remaining =~= old(self)@.remaining.drop_first());
            }
            Some(s)
        } else {
            None
        }
    }
}

} // verus!
