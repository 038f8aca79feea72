//! Decoded sample tracks with a playback position.

use vstd::prelude::*;

use crate::Sample;

verus! {

/// Why a track could not be built.
#[derive(Debug, Copy, Clone, Eq, PartialEq, Structural)]
pub enum TrackError {
    /// The decoded data was sampled at a different rate than the stream.
    RateMismatch,
}

/// Ghost model of a [`VecTrack`]: the samples and the playback position.
pub struct TrackModel {
    pub samples: Seq<i64>,
    pub pos: usize,
}

/// One forward step of a track: the track afterwards, and the sample at the
/// old position, if the position had not yet run off the end.
pub open spec fn track_next_s(t: TrackModel) -> (TrackModel, Option<i64>) {
    let out = if t.pos < t.samples.len() {
        Some(t.samples[t.pos as int])
    } else {
        None
    };
    let pos2 = if t.pos < usize::MAX {
        (t.pos + 1) as usize
    } else {
        t.pos
    };
    (TrackModel { samples: t.samples, pos: pos2 }, out)
}

/// A track of decoded samples, played forward one sample per tick and
/// rewindable to position zero.
pub struct VecTrack {
    pub track: Vec<Sample>,
    pub counter: usize,
}

impl View for VecTrack {
    type V = TrackModel;

    open spec fn view(&self) -> TrackModel {
        TrackModel { samples: self.track@, pos: self.counter }
    }
}

impl VecTrack {
    /// A track holding the given samples, positioned at the start.
    pub fn from_samples(samples: Vec<Sample>) -> (t: Self)
        ensures
            t@.samples == samples@,
            t@.pos == 0,
    {
        VecTrack { track: samples, counter: 0 }
    }

    /// A track from samples already decoded elsewhere, accepted exactly when
    /// they were sampled at the stream's rate.
    pub fn try_from_decoded(sample_rate: u32, decoded_rate: u32, samples: Vec<Sample>) -> (r:
        Result<Self, TrackError>)
        ensures
            decoded_rate == sample_rate ==> (r matches Ok(t) && t@.samples == samples@ && t@.pos
                == 0),
            decoded_rate != sample_rate ==> r == Result::<Self, TrackError>::Err(
                TrackError::RateMismatch,
            ),
    {
        if decoded_rate != sample_rate {
            Err(TrackError::RateMismatch)
        } else {
            Ok(VecTrack { track: samples, counter: 0 })
        }
    }

    /// Rewind to position zero.
    pub fn reset(&mut self)
        ensures
            final(self)@.samples == old(self)@.samples,
            final(self)@.pos == 0,
    {
        self.counter = 0;
    }

    /// The sample at the current position, stepping the position forward;
    /// `None` once the position has run off the end.
    pub fn next(&mut self) -> (r: Option<Sample>)
        ensures
            final(self)@ == track_next_s(old(self)@).0,
            r == track_next_s(old(self)@).1,
    {
        let ret = if self.counter < self.track.len() {
            Some(self.track[self.counter])
        } else {
            None
        };
        if self.counter < usize::MAX {
            self.counter += 1;
        }
        ret
    }

    /// The number of samples held.
    pub fn len(&self) -> (n: usize)
        ensures
            n == self@.samples.len(),
    {
        self.track.len()
    }
}

} // verus!
