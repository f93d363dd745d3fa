//! In-memory sound data and the track that holds it. Decoding and playback
//! belong to the deployment; the engine only carries the bytes.

use vstd::prelude::*;

verus! {

/// Static sound data held in memory.
#[derive(Clone, Debug)]
pub struct SoundData(pub Vec<u8>);

impl View for SoundData {
    type V = Seq<u8>;

    open spec fn view(&self) -> Seq<u8> {
        self.0@
    }
}

impl SoundData {
    /// Copies the given bytes into a new `SoundData`.
    pub fn from_bytes(data: &[u8]) -> (r: Self)
        ensures
            r@ == data@,
    {
        SoundData(vstd::slice::slice_to_vec(data))
    }
}

/// A loadable sound track: its data, if any was loaded, and a report on the
/// last load attempt.
#[derive(Debug)]
pub struct AudioTrack {
    pub data: Option<SoundData>,
    pub status_message: String,
}

impl AudioTrack {
    /// An empty track.
    pub fn new() -> (r: Self)
        ensures
            r.data is None,
            r.status_message@.len() == 0,
    {
        AudioTrack { data: None, status_message: String::new() }
    }

    /// Whether the track holds data to play.
    pub fn is_valid(&self) -> (r: bool)
        ensures
            r == (self.data is Some),
    {
        match &self.data {
            Some(_) => true,
            None => false,
        }
    }
}

} // verus!
