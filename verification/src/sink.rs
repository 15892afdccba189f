//! A model of the audio output sink's observable state.
//!
//! The real output device consumes decoded streams on its own thread and in
//! real time; the controller never waits for it. What the controller *can*
//! know is what it has asked of the device: which decoded streams it has
//! queued (each identified by the track descriptor it was opened for, the
//! front one audible first), whether output is paused, the volume, and the
//! last seek request made within the front stream. [`Sink`] records exactly
//! that, so contracts over it say precisely which audio the controller has
//! lined up. The embedding shell mirrors every operation onto the actual
//! device; real-time facts the model cannot see — how far playback has
//! advanced, when a stream finishes — stay the device's own.

use vstd::prelude::*;

use crate::types::SongTable;

verus! {

/// The output sink as the controller sees it. See the module documentation.
pub struct Sink {
    /// The decoded streams queued on the device, front first. The
    /// controller keeps at most two here: the audible stream and one
    /// look-ahead stream.
    pub streams: Vec<SongTable>,
    /// Whether output is paused.
    pub paused: bool,
    /// Volume in hundredths of full scale: 100 plays tracks as recorded.
    pub volume: u8,
    /// The offset, in whole seconds, most recently requested within the
    /// front stream; reset whenever the front stream changes. The device
    /// may refuse a seek the stream does not support and that refusal is
    /// absorbed, so this records the request, not a guarantee.
    pub requested_seek: u64,
}

impl Sink {
    /// A fresh sink: nothing queued, not paused (an empty sink produces
    /// silence), full volume.
    pub fn new() -> (r: Sink)
        ensures
            r.streams@.len() == 0,
            !r.paused,
            r.volume == 100,
            r.requested_seek == 0,
    {
        Sink { streams: Vec::new(), paused: false, volume: 100, requested_seek: 0 }
    }

    /// Resume output.
    pub fn play(&mut self)
        ensures
            *final(self) == (Sink { paused: false, ..*old(self) }),
    {
        self.paused = false;
    }

    /// Pause output; the queued streams stay put.
    pub fn pause(&mut self)
        ensures
            *final(self) == (Sink { paused: true, ..*old(self) }),
    {
        self.paused = true;
    }

    /// Halt output by discarding every queued stream. Pause state and
    /// volume are kept; the seek request dies with the front stream.
    pub fn stop(&mut self)
        ensures
            final(self).streams@ == Seq::<SongTable>::empty(),
            final(self).paused == old(self).paused,
            final(self).volume == old(self).volume,
            final(self).requested_seek == 0,
    {
        self.streams.clear();
        self.requested_seek = 0;
    }

    /// Queue one more decoded stream behind the ones already waiting.
    pub fn append(&mut self, track: SongTable)
        ensures
            final(self).streams@ == old(self).streams@.push(track),
            final(self).paused == old(self).paused,
            final(self).volume == old(self).volume,
            final(self).requested_seek == old(self).requested_seek,
    {
        self.streams.push(track);
    }

    /// Drop the front stream — the one that has finished playing — so the
    /// stream queued behind it becomes audible. Does nothing when nothing
    /// is queued.
    pub fn skip_one(&mut self)
        ensures
            old(self).streams@.len() == 0 ==> *final(self) == *old(self),
            old(self).streams@.len() > 0 ==> final(self).streams@ == old(self).streams@.drop_first()
                && final(self).paused == old(self).paused
                && final(self).volume == old(self).volume
                && final(self).requested_seek == 0,
    {
        if self.streams.len() > 0 {
            self.streams.remove(0);
            self.requested_seek = 0;
            proof {
                assert(self.streams@ =~= old(self).streams@.drop_first());
            }
        }
    }

    /// Ask the device to move to `seconds` within the front stream. With
    /// nothing queued there is nothing to seek in and the request is
    /// dropped.
    pub fn seek(&mut self, seconds: u64)
        ensures
            final(self).streams@ == old(self).streams@,
            final(self).paused == old(self).paused,
            final(self).volume == old(self).volume,
            old(self).streams@.len() > 0 ==> final(self).requested_seek == seconds,
            old(self).streams@.len() == 0 ==> final(self).requested_seek == old(self).requested_seek,
    {
        if self.streams.len() > 0 {
            self.requested_seek = seconds;
        }
    }

    /// Set the output volume, in hundredths of full scale.
    pub fn set_volume(&mut self, volume: u8)
        ensures
            *final(self) == (Sink { volume, ..*old(self) }),
    {
        self.volume = volume;
    }

    /// How many streams are queued.
    pub fn len(&self) -> (r: usize)
        ensures
            r == self.streams@.len(),
    {
        self.streams.len()
    }

    /// Whether nothing at all is queued.
    pub fn empty(&self) -> (r: bool)
        ensures
            r == (self.streams@.len() == 0),
    {
        self.streams.len() == 0
    }

    /// Whether output is paused.
    pub fn is_paused(&self) -> (r: bool)
        ensures
            r == self.paused,
    {
        self.paused
    }
}

} // verus!
