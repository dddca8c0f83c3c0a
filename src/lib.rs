//! Sample producers and consumers for a simple audio pipeline, with the
//! driver that moves samples from one to the other.

pub mod roles;
pub mod stock;
pub mod pump;
pub mod laws;

pub use roles::{Destination, PlaybackErr, Sample, Source};
