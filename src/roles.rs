//! The two roles of the pipeline and the error a consumer reports.

use vstd::prelude::*;

verus! {

/// One amplitude value of an audio signal, as signed 16-bit PCM.
pub type Sample = i16;

/// Error handed back when a destination cannot play a sample.
#[derive(Debug)]
pub struct PlaybackErr {
    pub msg: String,
}

impl PlaybackErr {
    /// Builds an error whose message is exactly `message`.
    pub fn new(message: &str) -> (r: Self)
        ensures
            r.msg@ == message@,
    {
        PlaybackErr { msg: message.to_owned() }
    }
}

/// An object that hands out the samples of an audio signal, one per call.
pub trait Source: Sized {
    /// Holds when one call of `sample` may take the source from state `self`
    /// to state `post` and hand out `s`.
    spec fn emits(self, post: Self, s: Sample) -> bool;

    /// Hands out the next sample and advances the source.
    fn sample(&mut self) -> (s: Sample)
        ensures
            old(self).emits(*final(self), s),
    ;
}

/// An object that takes samples, one per call, and plays or forwards them.
pub trait Destination: Sized {
    /// Holds when one call of `play` with sample `s` may take the destination
    /// from state `self` to state `post` and answer `r`.
    spec fn plays(self, post: Self, s: Sample, r: Result<(), PlaybackErr>) -> bool;

    /// Takes one sample; reports whether it was accepted.
    fn play(&mut self, s: Sample) -> (r: Result<(), PlaybackErr>)
        ensures
            old(self).plays(*final(self), s, r),
    ;
}

} // verus!
