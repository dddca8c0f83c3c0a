//! Ready-made sources and destinations: a source that steps by a fixed
//! amount, a destination that keeps what it is given, and one that turns
//! every sample down.

use crate::roles::{Destination, PlaybackErr, Sample, Source};
use vstd::prelude::*;

verus! {

/// `v` held to the range of a sample: values past either end stop there.
pub open spec fn clip(v: int) -> Sample {
    if v > i16::MAX {
        i16::MAX
    } else if v < i16::MIN {
        i16::MIN
    } else {
        v as Sample
    }
}

/// A source that hands out `next`, then moves `next` on by `step`, held to
/// the range of a sample.
pub struct StepSource {
    pub next: Sample,
    pub step: Sample,
}

impl StepSource {
    /// A source whose first sample is `start` and which moves by `step`.
    pub fn new(start: Sample, step: Sample) -> (r: Self)
        ensures
            r.next == start,
            r.step == step,
    {
        StepSource { next: start, step }
    }
}

impl Source for StepSource {
    open spec fn emits(self, post: Self, s: Sample) -> bool {
        &&& s == self.next
        &&& post.step == self.step
        &&& post.next == clip(self.next + self.step)
    }

    fn sample(&mut self) -> (s: Sample) {
        let s = self.next;
        let moved: i32 = self.next as i32 + self.step as i32;
        self.next = if moved > i16::MAX as i32 {
            i16::MAX
        } else if moved < i16::MIN as i32 {
            i16::MIN
        } else {
            moved as i16
        };
        s
    }
}

/// A destination that accepts every sample and keeps them in the order
/// they came.
pub struct Recorder {
    pub samples: Vec<Sample>,
}

impl Recorder {
    /// A recorder that holds no sample yet.
    pub fn new() -> (r: Self)
        ensures
            r.samples@.len() == 0,
    {
        Recorder { samples: Vec::new() }
    }
}

impl Destination for Recorder {
    open spec fn plays(self, post: Self, s: Sample, r: Result<(), PlaybackErr>) -> bool {
        &&& r is Ok
        &&& post.samples@ == self.samples@.push(s)
    }

    fn play(&mut self, s: Sample) -> (r: Result<(), PlaybackErr>) {
        self.samples.push(s);
        Ok(())
    }
}

/// A destination that turns down every sample with the same message.
pub struct Refuser {
    pub msg: String,
}

impl Refuser {
    /// A refuser whose failures carry `message`.
    pub fn new(message: &str) -> (r: Self)
        ensures
            r.msg@ == message@,
    {
        Refuser { msg: message.to_owned() }
    }
}

impl Destination for Refuser {
    open spec fn plays(self, post: Self, s: Sample, r: Result<(), PlaybackErr>) -> bool {
        &&& r matches Err(e) && e.msg@ == self.msg@
        &&& post.msg@ == self.msg@
    }

    fn play(&mut self, s: Sample) -> (r: Result<(), PlaybackErr>) {
        Err(PlaybackErr { msg: self.msg.clone() })
    }
}

} // verus!
