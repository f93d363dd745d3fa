//! The audio player's command queue. The original player hands these
//! signals to a dedicated playback thread; here the queue is explicit and
//! verified, and a deployment drains it into whatever audio backend it has.

use vstd::prelude::*;

use crate::notifications::audio::{AudioTrack, SoundData};

verus! {

/// A command for the playback thread.
#[derive(Debug)]
pub enum AudioSignal {
    /// Play this track once.
    PlayTrack(AudioTrack),
    /// Switch to the named output device; `None` selects the default.
    SetDevice(Option<String>),
    /// Stop the playback thread.
    Terminate,
}

/// A copy of a sound's bytes.
pub fn copy_sound(d: &SoundData) -> (r: SoundData)
    ensures
        r@ == d@,
{
    SoundData(vstd::slice::slice_to_vec(d.0.as_slice()))
}

/// A copy of a track: the same bytes and the same report.
pub fn copy_track(t: &AudioTrack) -> (r: AudioTrack)
    ensures
        r.data is Some <==> t.data is Some,
        t.data matches Some(d) ==> (r.data matches Some(c) && c@ == d@),
        r.status_message == t.status_message,
{
    AudioTrack {
        data: match &t.data {
            Some(d) => Some(copy_sound(d)),
            None => None,
        },
        status_message: t.status_message.clone(),
    }
}

/// The producer side of the playback thread: commands are queued in call
/// order and handed out in FIFO order. After [`AudioPlayer::release`] every
/// further command is dropped.
#[derive(Debug)]
pub struct AudioPlayer {
    /// The commands not yet taken by the playback side.
    pub pending: Vec<AudioSignal>,
    /// Whether the player was shut down.
    pub released: bool,
}

impl AudioPlayer {
    /// A player with nothing queued.
    pub fn new() -> (r: Self)
        ensures
            r.pending@.len() == 0,
            !r.released,
    {
        AudioPlayer { pending: Vec::new(), released: false }
    }

    /// Queues the track for playback. A released player drops it.
    pub fn play_track(&mut self, track: &AudioTrack)
        ensures
            old(self).released ==> *final(self) == *old(self),
            !old(self).released ==> {
                &&& final(self).pending@.len() == old(self).pending@.len() + 1
                &&& final(self).pending@.subrange(0, old(self).pending@.len() as int) == old(
                    self,
                ).pending@
                &&& final(self).pending@.last() matches AudioSignal::PlayTrack(t) && {
                    &&& t.data is Some <==> track.data is Some
                    &&& track.data matches Some(d) ==> (t.data matches Some(c) && c@ == d@)
                    &&& t.status_message == track.status_message
                }
                &&& final(self).released == old(self).released
            },
    {
        if self.released {
            return ;
        }
        self.pending.push(AudioSignal::PlayTrack(copy_track(track)));
        proof {
            assert(self.pending@.subrange(0, old(self).pending@.len() as int) =~= old(
                self,
            ).pending@);
        }
    }

    /// Queues a device switch. A released player drops it.
    pub fn set_device(&mut self, device: Option<String>)
        ensures
            old(self).released ==> *final(self) == *old(self),
            !old(self).released ==> {
                &&& final(self).pending@ == old(self).pending@.push(
                    AudioSignal::SetDevice(device),
                )
                &&& final(self).released == old(self).released
            },
    {
        if self.released {
            return ;
        }
        self.pending.push(AudioSignal::SetDevice(device));
    }

    /// Queues the terminate command and shuts the player down.
    pub fn release(&mut self)
        ensures
            old(self).released ==> *final(self) == *old(self),
            !old(self).released ==> {
                &&& final(self).pending@ == old(self).pending@.push(AudioSignal::Terminate)
                &&& final(self).released
            },
    {
        if self.released {
            return ;
        }
        self.pending.push(AudioSignal::Terminate);
        self.released = true;
    }

    /// Hands the next command to the playback side, in FIFO order.
    pub fn next_signal(&mut self) -> (r: Option<AudioSignal>)
        ensures
            r is None <==> old(self).pending@.len() == 0,
            r is None ==> *final(self) == *old(self),
            r matches Some(signal) ==> {
                &&& signal == old(self).pending@[0]
                &&& final(self).pending@ == old(self).pending@.drop_first()
                &&& final(self).released == old(self).released
            },
    {
        if self.pending.len() == 0 {
            return None;
        }
        let signal = self.pending.remove(0);
        proof {
            assert(old(self).pending@.remove(0) =~= old(self).pending@.drop_first());
        }
        Some(signal)
    }
}

} // verus!
