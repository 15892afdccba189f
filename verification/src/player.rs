//! The playback queue controller.
//!
//! [`MusicPlayer`] owns the ordered queue of tracks, the current-position
//! cursor and the repeat-mode policy, and drives the output sink so that at
//! most two decoded streams — the audible one and one look-ahead — are ever
//! queued on it. Opening a track's file and decoding it belong to the
//! embedding shell; each loading operation takes the outcome of that
//! attempt as a plain [`SourceOutcome`] value and the contracts state what
//! the controller does with every possible outcome.

use vstd::prelude::*;

use crate::sink::Sink;
use crate::types::SongTable;

verus! {

/// What happens when the current track ends or the listener advances.
#[derive(Clone, Copy, Debug, PartialEq, Eq, Structural)]
pub enum RepeatMode {
    /// Play the queue once and stop at its end.
    NoRepeat,
    /// Start the queue over after its last track.
    RepeatQueue,
    /// Play the current track again and again.
    RepeatOne,
}

/// The integer coding the interface uses for repeat modes: 0 plays the
/// queue once, 1 repeats the queue, and everything else repeats the
/// current track.
pub open spec fn mode_of_code(code: i64) -> RepeatMode {
    if code == 0 {
        RepeatMode::NoRepeat
    } else if code == 1 {
        RepeatMode::RepeatQueue
    } else {
        RepeatMode::RepeatOne
    }
}

/// The canonical code reported for each repeat mode.
pub open spec fn code_of_mode(mode: RepeatMode) -> i64 {
    match mode {
        RepeatMode::NoRepeat => 0,
        RepeatMode::RepeatQueue => 1,
        RepeatMode::RepeatOne => 2,
    }
}

/// The failures an operation reports to its caller.
#[derive(Clone, Copy, Debug, PartialEq, Eq, Structural)]
pub enum PlayerError {
    /// A requested position lies beyond the permitted cursor bound.
    IndexOutOfRange,
    /// The queue holds no track to read.
    EmptyQueue,
    /// The selected track's file is missing or unreadable.
    TrackUnavailable,
}

/// How the shell's attempt to open a track's file and build a decoded,
/// seekable stream from it came out. Decode failures are absorbed — the
/// track is skipped silently rather than interrupting the session — while a
/// missing file is reported, so the two are told apart here.
#[derive(Clone, Copy, Debug, PartialEq, Eq, Structural)]
pub enum SourceOutcome {
    /// The file opened and the decoder produced a stream.
    Ready,
    /// The file is missing or could not be opened.
    Unreadable,
    /// The file opened but the decoder rejected its contents.
    DecodeFailed,
}

/// Where the cursor stands after one forward advance, for each repeat mode.
///
/// Without repeat, reaching the second-to-last track counts as the end of
/// the queue and rewinds the cursor to the front (the look-ahead for the
/// last track is already buffered, so there is nothing further to advance
/// to); otherwise the cursor moves one step, up to the permissive bound one
/// past the last track. Repeating the queue wraps the step around to the
/// front. Repeating one track never moves the cursor.
pub open spec fn next_cursor(mode: RepeatMode, pos: int, len: int) -> int {
    match mode {
        RepeatMode::NoRepeat => if 2 <= len && pos == len - 2 {
            0
        } else if pos < len {
            pos + 1
        } else {
            pos
        },
        RepeatMode::RepeatQueue => if len == 0 {
            pos
        } else if pos >= len - 1 {
            0
        } else {
            pos + 1
        },
        RepeatMode::RepeatOne => pos,
    }
}

/// Where the cursor stands after one step back in a queue of length `len`:
/// from the front it wraps to the last track.
pub open spec fn prev_cursor(pos: int, len: int) -> int
    recommends
        0 < len,
{
    if pos == 0 {
        len - 1
    } else {
        pos - 1
    }
}

/// `s` with its front stream dropped, or `s` itself when it is empty.
pub open spec fn skip_front(s: Seq<SongTable>) -> Seq<SongTable> {
    if s.len() == 0 {
        s
    } else {
        s.drop_first()
    }
}

/// The streams queued after a full reload at position `np` of queue `q`:
/// the track at `np` when its file opened and decoded, then the following
/// track as look-ahead when there is one and its file opened and decoded.
pub open spec fn reloaded_streams(
    q: Seq<SongTable>,
    np: int,
    current: SourceOutcome,
    ahead: SourceOutcome,
) -> Seq<SongTable>
    recommends
        0 <= np < q.len(),
{
    let first = if current == SourceOutcome::Ready {
        seq![q[np]]
    } else {
        Seq::<SongTable>::empty()
    };
    if np + 1 < q.len() && ahead == SourceOutcome::Ready {
        first.push(q[np + 1])
    } else {
        first
    }
}

/// The playback queue controller. Fields are public so that the embedding
/// shell and the contracts can read them; every operation that changes them
/// preserves [`MusicPlayer::wf`].
pub struct MusicPlayer {
    /// The output sink model the shell mirrors onto the real device.
    pub sink: Sink,
    /// The cursor: which queue position is current.
    pub position: usize,
    /// What happens when the current track ends.
    pub repeat_mode: RepeatMode,
    /// The ordered queue of tracks; the controller never reorders it.
    pub queue: Vec<SongTable>,
}

impl MusicPlayer {
    /// The controller is well formed when the cursor does not run past the
    /// permitted bound — one past the last track, see
    /// [`MusicPlayer::update_current_index`] — and the sink never holds
    /// more than the audible stream plus one look-ahead stream.
    pub open spec fn wf(&self) -> bool {
        &&& self.position <= self.queue@.len()
        &&& self.sink.streams@.len() <= 2
    }

    /// Whether a requested cursor position passes the bound check: every
    /// position up to *and including* the queue length is accepted. The
    /// position equal to the length selects no track; the reading and
    /// loading operations treat it as nothing to read or load.
    pub open spec fn index_accepted(pos: int, len: int) -> bool {
        0 <= pos <= len
    }

    /// A controller bound to `sink` for its lifetime: empty queue, cursor
    /// at the front, repeat-queue policy, output paused until the first
    /// play. The sink it adopts must respect the two-stream bound already.
    pub fn new(sink: Sink) -> (r: MusicPlayer)
        requires
            sink.streams@.len() <= 2,
        ensures
            r.wf(),
            r.position == 0,
            r.repeat_mode == RepeatMode::RepeatQueue,
            r.queue@.len() == 0,
            r.sink == (Sink { paused: true, ..sink }),
    {
        let mut sink = sink;
        sink.pause();
        MusicPlayer { sink, position: 0, repeat_mode: RepeatMode::RepeatQueue, queue: Vec::new() }
    }

    /// Replace the queue wholesale and reset the cursor to the front. The
    /// sink's buffered streams are left alone: callers follow up with a
    /// load when they want the new queue audible.
    pub fn set_queue(&mut self, q: Vec<SongTable>)
        requires
            old(self).wf(),
        ensures
            final(self).wf(),
            final(self).queue@ == q@,
            final(self).position == 0,
            final(self).repeat_mode == old(self).repeat_mode,
            final(self).sink == old(self).sink,
    {
        self.queue = q;
        self.position = 0;
    }

    /// Append tracks to the end of the queue; the cursor and the sink are
    /// untouched.
    pub fn add_to_queue(&mut self, q: Vec<SongTable>)
        requires
            old(self).wf(),
        ensures
            final(self).wf(),
            final(self).queue@ == old(self).queue@ + q@,
            final(self).position == old(self).position,
            final(self).repeat_mode == old(self).repeat_mode,
            final(self).sink == old(self).sink,
    {
        let mut more = q;
        self.queue.append(&mut more);
    }

    /// Stop the sink — discarding any buffered or playing audio — empty the
    /// queue and reset the cursor to the front.
    pub fn clear_queue(&mut self)
        requires
            old(self).wf(),
        ensures
            final(self).wf(),
            final(self).queue@.len() == 0,
            final(self).position == 0,
            final(self).repeat_mode == old(self).repeat_mode,
            final(self).sink.streams@.len() == 0,
            final(self).sink.paused == old(self).sink.paused,
            final(self).sink.volume == old(self).sink.volume,
            final(self).sink.requested_seek == 0,
    {
        self.sink.stop();
        self.queue.clear();
        self.position = 0;
    }

    /// The queue as it stands, in order.
    pub fn get_current_queue(&self) -> (r: &Vec<SongTable>)
        ensures
            r@ == self.queue@,
    {
        &self.queue
    }

    /// How many tracks the queue holds.
    pub fn get_queue_length(&self) -> (r: usize)
        ensures
            r == self.queue@.len(),
    {
        self.queue.len()
    }

    /// Where the cursor stands.
    pub fn get_current_position(&self) -> (r: usize)
        ensures
            r == self.position,
    {
        self.position
    }

    /// The track the cursor stands on. An empty queue has no current track;
    /// a cursor parked one past the last track — the permissive bound —
    /// selects none either, and both cases are reported rather than read
    /// out of bounds.
    pub fn get_current_song(&self) -> (r: Result<SongTable, PlayerError>)
        ensures
            self.queue@.len() == 0 ==> r == Err::<SongTable, PlayerError>(PlayerError::EmptyQueue),
            self.queue@.len() > 0 && self.position < self.queue@.len()
                ==> r == Ok::<SongTable, PlayerError>(self.queue@[self.position as int]),
            self.queue@.len() > 0 && self.position >= self.queue@.len()
                ==> r == Err::<SongTable, PlayerError>(PlayerError::IndexOutOfRange),
    {
        if self.queue.len() == 0 {
            Err(PlayerError::EmptyQueue)
        } else if self.position < self.queue.len() {
            Ok(self.queue[self.position].clone())
        } else {
            Err(PlayerError::IndexOutOfRange)
        }
    }

    /// Move the cursor to `pos`. Positions up to and including the queue
    /// length are accepted — the bound this interface has always exposed —
    /// and anything larger is rejected, leaving the cursor unchanged.
    /// Succeeds exactly when [`MusicPlayer::index_accepted`] holds; never
    /// touches the sink.
    pub fn update_current_index(&mut self, pos: usize) -> (r: Result<(), PlayerError>)
        requires
            old(self).wf(),
        ensures
            final(self).wf(),
            final(self).queue@ == old(self).queue@,
            final(self).repeat_mode == old(self).repeat_mode,
            final(self).sink == old(self).sink,
            r is Ok <==> MusicPlayer::index_accepted(pos as int, old(self).queue@.len() as int),
            pos <= old(self).queue@.len()
                ==> r == Ok::<(), PlayerError>(()) && final(self).position == pos,
            pos > old(self).queue@.len()
                ==> r == Err::<(), PlayerError>(PlayerError::IndexOutOfRange)
                    && final(self).position == old(self).position,
    {
        if pos > self.queue.len() {
            Err(PlayerError::IndexOutOfRange)
        } else if pos == self.position {
            Ok(())
        } else {
            self.position = pos;
            Ok(())
        }
    }

    /// Commit the cursor to `pos` and make that track the one audible:
    /// discard whatever the sink buffered and queue a fresh stream for the
    /// track, leaving pause state alone.
    ///
    /// The bound check and its error are those of
    /// [`MusicPlayer::update_current_index`], and a rejected position
    /// changes nothing. Once the position is committed it stays committed,
    /// whatever became of the file: a missing or unreadable file is
    /// reported as [`PlayerError::TrackUnavailable`] with nothing queued,
    /// while a decode failure on a readable file is absorbed — nothing is
    /// queued and the call still succeeds, so a bad file degrades into
    /// silence instead of interrupting the session. A committed position
    /// equal to the queue length selects no track, so nothing is queued and
    /// `source` is not consulted.
    pub fn load_song(&mut self, pos: usize, source: SourceOutcome) -> (r: Result<(), PlayerError>)
        requires
            old(self).wf(),
        ensures
            final(self).wf(),
            final(self).queue@ == old(self).queue@,
            final(self).repeat_mode == old(self).repeat_mode,
            final(self).sink.paused == old(self).sink.paused,
            final(self).sink.volume == old(self).sink.volume,
            r is Ok <==> !(pos > old(self).queue@.len() || (pos < old(self).queue@.len()
                && source == SourceOutcome::Unreadable)),
            pos > old(self).queue@.len()
                ==> r == Err::<(), PlayerError>(PlayerError::IndexOutOfRange)
                    && *final(self) == *old(self),
            pos <= old(self).queue@.len()
                ==> final(self).position == pos && final(self).sink.requested_seek == 0,
            pos < old(self).queue@.len() && source == SourceOutcome::Ready
                ==> r == Ok::<(), PlayerError>(())
                    && final(self).sink.streams@ == seq![old(self).queue@[pos as int]],
            pos < old(self).queue@.len() && source == SourceOutcome::Unreadable
                ==> r == Err::<(), PlayerError>(PlayerError::TrackUnavailable)
                    && final(self).sink.streams@.len() == 0,
            pos < old(self).queue@.len() && source == SourceOutcome::DecodeFailed
                ==> r == Ok::<(), PlayerError>(()) && final(self).sink.streams@.len() == 0,
            pos == old(self).queue@.len()
                ==> r == Ok::<(), PlayerError>(()) && final(self).sink.streams@.len() == 0,
    {
        if pos > self.queue.len() {
            return Err(PlayerError::IndexOutOfRange);
        }
        self.position = pos;
        self.sink.stop();
        if pos < self.queue.len() {
            match source {
                SourceOutcome::Ready => {
                    let track = self.queue[pos].clone();
                    self.sink.append(track);
                    proof {
                        assert(self.sink.streams@ =~= seq![old(self).queue@[pos as int]]);
                    }
                    Ok(())
                },
                SourceOutcome::Unreadable => Err(PlayerError::TrackUnavailable),
                SourceOutcome::DecodeFailed => Ok(()),
            }
        } else {
            Ok(())
        }
    }

    /// Resume output.
    pub fn play_song(&mut self)
        requires
            old(self).wf(),
        ensures
            final(self).wf(),
            final(self).queue@ == old(self).queue@,
            final(self).position == old(self).position,
            final(self).repeat_mode == old(self).repeat_mode,
            final(self).sink == (Sink { paused: false, ..old(self).sink }),
    {
        self.sink.play();
    }

    /// Pause output; everything buffered stays put.
    pub fn pause_song(&mut self)
        requires
            old(self).wf(),
        ensures
            final(self).wf(),
            final(self).queue@ == old(self).queue@,
            final(self).position == old(self).position,
            final(self).repeat_mode == old(self).repeat_mode,
            final(self).sink == (Sink { paused: true, ..old(self).sink }),
    {
        self.sink.pause();
    }

    /// Halt output, discarding the buffered streams. The queue and the
    /// cursor are untouched — this stops sound, it does not forget the
    /// listener's place; see [`MusicPlayer::clear_queue`] for that.
    pub fn stop_song(&mut self)
        requires
            old(self).wf(),
        ensures
            final(self).wf(),
            final(self).queue@ == old(self).queue@,
            final(self).position == old(self).position,
            final(self).repeat_mode == old(self).repeat_mode,
            final(self).sink.streams@.len() == 0,
            final(self).sink.paused == old(self).sink.paused,
            final(self).sink.volume == old(self).sink.volume,
            final(self).sink.requested_seek == 0,
    {
        self.sink.stop();
    }

    /// Ask the sink to move to `position` seconds within the playing
    /// stream. A seek the current stream does not support is absorbed by
    /// the device layer, so the caller never observes a failure; what is
    /// recorded here is the request.
    pub fn seek(&mut self, position: u64)
        requires
            old(self).wf(),
        ensures
            final(self).wf(),
            final(self).queue@ == old(self).queue@,
            final(self).position == old(self).position,
            final(self).repeat_mode == old(self).repeat_mode,
            final(self).sink.streams@ == old(self).sink.streams@,
            final(self).sink.paused == old(self).sink.paused,
            final(self).sink.volume == old(self).sink.volume,
            old(self).sink.streams@.len() > 0 ==> final(self).sink.requested_seek == position,
            old(self).sink.streams@.len() == 0 ==> final(self).sink.requested_seek == old(
                self,
            ).sink.requested_seek,
    {
        self.sink.seek(position);
    }

    /// The offset most recently requested within the playing stream, in
    /// whole seconds. How far playback has actually advanced is the
    /// device's own real-time state and is read from it directly.
    pub fn get_song_pos(&self) -> (r: u64)
        ensures
            r == self.sink.requested_seek,
    {
        self.sink.requested_seek
    }

    /// Whether output is paused.
    pub fn check_is_paused(&self) -> (r: bool)
        ensures
            r == self.sink.paused,
    {
        self.sink.is_paused()
    }

    /// Whether the sink holds any queued or playing stream.
    pub fn check_is_loaded(&self) -> (r: bool)
        ensures
            r == (self.sink.streams@.len() > 0),
    {
        !self.sink.empty()
    }

    /// How many streams the sink has buffered — the audible one plus any
    /// look-ahead.
    pub fn get_sink_length(&self) -> (r: usize)
        ensures
            r == self.sink.streams@.len(),
    {
        self.sink.len()
    }

    /// The code of the current repeat mode; see [`mode_of_code`].
    pub fn check_repeat_mode(&self) -> (r: i64)
        ensures
            r == code_of_mode(self.repeat_mode),
    {
        match self.repeat_mode {
            RepeatMode::NoRepeat => 0,
            RepeatMode::RepeatQueue => 1,
            RepeatMode::RepeatOne => 2,
        }
    }

    /// Set the repeat mode from its interface code; see [`mode_of_code`].
    /// The mode persists across track changes until set again.
    pub fn set_repeat_mode(&mut self, mode: i64)
        requires
            old(self).wf(),
        ensures
            final(self).wf(),
            final(self).queue@ == old(self).queue@,
            final(self).position == old(self).position,
            final(self).repeat_mode == mode_of_code(mode),
            final(self).sink == old(self).sink,
    {
        if mode == 0 {
            self.repeat_mode = RepeatMode::NoRepeat;
        } else if mode == 1 {
            self.repeat_mode = RepeatMode::RepeatQueue;
        } else {
            self.repeat_mode = RepeatMode::RepeatOne;
        }
    }

    /// Set the output volume, in hundredths of full scale.
    pub fn set_volume(&mut self, volume: u8)
        requires
            old(self).wf(),
        ensures
            final(self).wf(),
            final(self).queue@ == old(self).queue@,
            final(self).position == old(self).position,
            final(self).repeat_mode == old(self).repeat_mode,
            final(self).sink == (Sink { volume, ..old(self).sink }),
    {
        self.sink.set_volume(volume);
    }

    /// Which queue position [`MusicPlayer::next_song`] will want a fresh
    /// stream for, so the shell can open that track's file before calling
    /// it. `None` means the advance opens nothing and the outcome handed to
    /// `next_song` is not consulted.
    pub fn next_load_target(&self) -> (r: Option<usize>)
        requires
            self.wf(),
        ensures
            ({
                let pos = self.position as int;
                let len = self.queue@.len() as int;
                match self.repeat_mode {
                    RepeatMode::NoRepeat => if !(2 <= len && pos == len - 2) && pos < len && pos + 2
                        < len {
                        r == Some((pos + 2) as usize)
                    } else {
                        r is None
                    },
                    RepeatMode::RepeatQueue => if len > 0 {
                        r == Some(next_cursor(RepeatMode::RepeatQueue, pos, len) as usize)
                    } else {
                        r is None
                    },
                    RepeatMode::RepeatOne => r is None,
                }
            }),
    {
        let len: usize = self.queue.len();
        match self.repeat_mode {
            RepeatMode::NoRepeat => {
                if len >= 2 && self.position == len - 2 {
                    None
                } else if self.position < len && len - self.position > 2 {
                    Some(self.position + 2)
                } else {
                    None
                }
            },
            RepeatMode::RepeatQueue => {
                if len == 0 {
                    None
                } else if self.position >= len - 1 {
                    Some(0)
                } else {
                    Some(self.position + 1)
                }
            },
            RepeatMode::RepeatOne => None,
        }
    }

    /// Which queue positions [`MusicPlayer::previous_song`] will want fresh
    /// streams for: the track it steps back to, and the look-ahead behind
    /// it when there is one. `None` in a slot means nothing is opened for
    /// it and the matching outcome is not consulted.
    pub fn previous_load_targets(&self) -> (r: (Option<usize>, Option<usize>))
        requires
            self.wf(),
        ensures
            ({
                let len = self.queue@.len() as int;
                let np = prev_cursor(self.position as int, len);
                if len == 0 {
                    r.0 is None && r.1 is None
                } else {
                    r.0 == Some(np as usize) && if np + 1 < len {
                        r.1 == Some((np + 1) as usize)
                    } else {
                        r.1 is None
                    }
                }
            }),
    {
        let len: usize = self.queue.len();
        if len == 0 {
            (None, None)
        } else {
            let np: usize = if self.position == 0 {
                len - 1
            } else {
                self.position - 1
            };
            if len - np > 1 {
                (Some(np), Some(np + 1))
            } else {
                (Some(np), None)
            }
        }
    }

    /// Advance past the current track, as the repeat mode directs.
    ///
    /// Without repeat, a cursor on the second-to-last track counts as the
    /// end of the queue: the cursor rewinds to the front and output halts.
    /// Any earlier cursor moves one step forward; the stream that just
    /// finished is dropped from the sink's front — the new current track's
    /// stream is already buffered there from the previous advance — and a
    /// fresh look-ahead stream for the track after the new one is queued
    /// behind it when that track exists and its file opened, which keeps
    /// transitions gapless. With the cursor already past the last track
    /// there is nothing to advance to and nothing happens.
    ///
    /// Repeating the queue instead discards everything buffered, steps the
    /// cursor forward wrapping to the front after the last track, queues a
    /// fresh stream for the new current track — when its file opened; a
    /// failed open or decode is absorbed and the track skipped in silence —
    /// and plays.
    ///
    /// Repeating one track rewinds the playing stream to its start and
    /// plays; the cursor and the buffered streams are untouched.
    ///
    /// `source` is the outcome of opening the one track this advance may
    /// need a stream for; [`MusicPlayer::next_load_target`] names it.
    pub fn next_song(&mut self, source: SourceOutcome)
        requires
            old(self).wf(),
        ensures
            final(self).wf(),
            final(self).queue@ == old(self).queue@,
            final(self).repeat_mode == old(self).repeat_mode,
            final(self).sink.volume == old(self).sink.volume,
            final(self).position as int == next_cursor(
                old(self).repeat_mode,
                old(self).position as int,
                old(self).queue@.len() as int,
            ),
            ({
                let pos = old(self).position as int;
                let len = old(self).queue@.len() as int;
                let q = old(self).queue@;
                let s0 = old(self).sink;
                let s1 = final(self).sink;
                match old(self).repeat_mode {
                    RepeatMode::NoRepeat => {
                        if 2 <= len && pos == len - 2 {
                            s1.streams@.len() == 0 && s1.paused == s0.paused
                                && s1.requested_seek == 0
                        } else if pos < len {
                            &&& !s1.paused
                            &&& s1.streams@ == (if pos + 2 < len && source == SourceOutcome::Ready {
                                skip_front(s0.streams@).push(q[pos + 2])
                            } else {
                                skip_front(s0.streams@)
                            })
                            &&& s1.requested_seek == (if s0.streams@.len() > 0 {
                                0
                            } else {
                                s0.requested_seek
                            })
                        } else {
                            s1 == s0
                        }
                    },
                    RepeatMode::RepeatQueue => {
                        &&& !s1.paused
                        &&& s1.requested_seek == 0
                        &&& s1.streams@ == (if len > 0 && source == SourceOutcome::Ready {
                            seq![q[next_cursor(RepeatMode::RepeatQueue, pos, len)]]
                        } else {
                            Seq::<SongTable>::empty()
                        })
                    },
                    RepeatMode::RepeatOne => {
                        &&& !s1.paused
                        &&& s1.streams@ == s0.streams@
                        &&& s1.requested_seek == (if s0.streams@.len() > 0 {
                            0
                        } else {
                            s0.requested_seek
                        })
                    },
                }
            }),
    {
        match self.repeat_mode {
            RepeatMode::NoRepeat => {
                let len: usize = self.queue.len();
                if len >= 2 && self.position == len - 2 {
                    self.position = 0;
                    self.sink.stop();
                } else if self.position < len {
                    let new_pos: usize = self.position + 1;
                    self.position = new_pos;
                    self.sink.skip_one();
                    if len - new_pos > 1 {
                        match source {
                            SourceOutcome::Ready => {
                                let track = self.queue[new_pos + 1].clone();
                                self.sink.append(track);
                            },
                            _ => {},
                        }
                    }
                    self.sink.play();
                } else {
                    // The cursor is already parked past the last track:
                    // nothing to advance to.
                }
            },
            RepeatMode::RepeatQueue => {
                let len: usize = self.queue.len();
                let new_pos: usize = if len == 0 {
                    0
                } else if self.position >= len - 1 {
                    0
                } else {
                    self.position + 1
                };
                self.position = new_pos;
                self.sink.stop();
                if len > 0 {
                    match source {
                        SourceOutcome::Ready => {
                            let track = self.queue[new_pos].clone();
                            self.sink.append(track);
                            proof {
                                assert(self.sink.streams@ =~= seq![
                                    old(self).queue@[new_pos as int],
                                ]);
                            }
                        },
                        _ => {},
                    }
                }
                self.sink.play();
            },
            RepeatMode::RepeatOne => {
                self.sink.seek(0);
                self.sink.play();
            },
        }
    }

    /// Step back to the previous track — wrapping from the front to the
    /// last track — and make it audible: everything buffered is discarded,
    /// a fresh stream for the track stepped back to is queued and played,
    /// and, when that track is not the last one, a look-ahead stream for
    /// the track after it is queued behind it to restore gapless
    /// transitions. A failed open or decode of either file is absorbed:
    /// that stream is skipped in silence. On an empty queue there is no
    /// previous track and nothing happens.
    ///
    /// `current` and `ahead` are the outcomes of opening the two tracks
    /// this step may need streams for;
    /// [`MusicPlayer::previous_load_targets`] names them.
    pub fn previous_song(&mut self, current: SourceOutcome, ahead: SourceOutcome)
        requires
            old(self).wf(),
        ensures
            final(self).wf(),
            final(self).queue@ == old(self).queue@,
            final(self).repeat_mode == old(self).repeat_mode,
            final(self).sink.volume == old(self).sink.volume,
            old(self).queue@.len() == 0 ==> *final(self) == *old(self),
            old(self).queue@.len() > 0 ==> ({
                let len = old(self).queue@.len() as int;
                let np = prev_cursor(old(self).position as int, len);
                &&& final(self).position as int == np
                &&& !final(self).sink.paused
                &&& final(self).sink.requested_seek == 0
                &&& final(self).sink.streams@ == reloaded_streams(
                    old(self).queue@,
                    np,
                    current,
                    ahead,
                )
            }),
    {
        let len: usize = self.queue.len();
        if len == 0 {
            return ;
        }
        let new_pos: usize = if self.position == 0 {
            len - 1
        } else {
            self.position - 1
        };
        self.position = new_pos;
        self.sink.stop();
        match current {
            SourceOutcome::Ready => {
                let track = self.queue[new_pos].clone();
                self.sink.append(track);
                proof {
                    assert(self.sink.streams@ =~= seq![old(self).queue@[new_pos as int]]);
                }
            },
            _ => {},
        }
        self.sink.play();
        if len - new_pos > 1 {
            match ahead {
                SourceOutcome::Ready => {
                    let track = self.queue[new_pos + 1].clone();
                    self.sink.append(track);
                },
                _ => {},
            }
        }
    }
}

/// Law: with the queue repeating and the cursor on the last track,
/// advancing wraps the cursor back to the front.
pub proof fn lemma_repeat_queue_wraparound(len: int)
    requires
        0 < len,
    ensures
        next_cursor(RepeatMode::RepeatQueue, len - 1, len) == 0,
{
}

/// Law: with one track repeating, advancing never moves the cursor, however
/// often it is done.
pub proof fn lemma_repeat_one_holds_cursor(pos: int, len: int)
    ensures
        next_cursor(RepeatMode::RepeatOne, pos, len) == pos,
{
}

/// Law: stepping back from the front of a non-empty queue selects its last
/// track.
pub proof fn lemma_previous_wraparound(len: int)
    requires
        0 < len,
    ensures
        prev_cursor(0, len) == len - 1,
{
}

} // verus!
