//! The playback state machine: the track list, the play order, and the
//! timestamps from which the position is derived.
//!
//! Time is given in nanoseconds of a clock that never runs backwards; the
//! caller reads the clock and hands the reading in. Opening a file and
//! removing one are the caller's work too: an operation that starts a track
//! returns a [`StartRequest`], and [`Player::start_track`] takes what opening
//! gave.
use crate::engine::AudioControl;
use crate::engine::UNITY_GAIN_BITS;
use crate::engine::next_generation;
use crate::engine::spec_sanitize_gain;
use crate::meta::TrackMeta;
use crate::util::identity_order;
use crate::util::is_permutation;
use crate::util::is_shuffled_order;
use crate::util::make_shuffled_order;
use crate::util::sequential_order;
use vstd::prelude::*;

verus! {

/// A path of the file system, carried through unread.
#[verifier::external_type_specification]
#[verifier::external_body]
pub struct ExPathBuf(std::path::PathBuf);

/// One playable file.
pub struct Track {
    pub path: std::path::PathBuf,
    pub display_name: String,
}

/// Whether a track plays.
#[derive(Clone, Copy, Debug, PartialEq, Eq, Structural)]
pub enum PlayState {
    Stopped,
    Playing,
    Paused,
}

/// Why an operation of the player failed.
#[derive(Clone, Copy, Debug, PartialEq, Eq, Structural)]
pub enum PlayerError {
    /// There is no current track.
    NoTrackSelected,
    /// The current track could not be opened.
    OpenFailed,
    /// The selected file could not be removed.
    DeleteFailed,
}

/// A track to open and hand to [`Player::start_track`].
#[derive(Clone, Copy, Debug, PartialEq, Eq, Structural)]
pub struct StartRequest {
    /// Index of the track in the list.
    pub track: usize,
    /// Where in the track to start, in nanoseconds.
    pub start_pos: u64,
    /// Whether the source is to start over when it ends.
    pub looping: bool,
}

/// What opening a track gave.
pub struct OpenedTrack<S> {
    /// The sample source, already in the output format.
    pub source: S,
    /// Length of the track as the decoder tells it.
    pub total_ns: Option<u64>,
    /// What the tags tell.
    pub meta: TrackMeta,
}

/// How removing a file from the disk went.
#[derive(Clone, Copy, Debug, PartialEq, Eq, Structural)]
pub enum Removal {
    /// The file is gone now.
    Removed,
    /// The file was gone already.
    AlreadyGone,
    /// The file is still there.
    Failed,
}

/// `a + b`, as far as 64 bits hold it.
pub open spec fn sat_add(a: u64, b: u64) -> u64 {
    if a + b > u64::MAX {
        u64::MAX
    } else {
        (a + b) as u64
    }
}

/// `a - b`, and zero where `b` is the larger.
pub open spec fn sat_sub(a: u64, b: u64) -> u64 {
    if a < b {
        0
    } else {
        (a - b) as u64
    }
}

/// The playback state machine.
pub struct Player {
    pub tracks: Vec<Track>,
    /// Index of the track that plays.
    pub current: usize,
    /// Index of the track that is highlighted.
    pub selected: usize,
    /// The order in which next and previous visit the tracks.
    pub play_order: Vec<usize>,
    /// Where in the play order the player stands.
    pub play_pos: usize,
    pub shuffle: bool,
    pub state: PlayState,
    /// The gain handed to the engine with each new source, as a bit pattern.
    pub gain_bits: u32,
    /// Where in the track the running source started.
    pub base_pos: u64,
    pub started_at: Option<u64>,
    pub paused_at: Option<u64>,
    /// Time spent paused since the source started.
    pub total_pause: u64,
    pub total_duration: Option<u64>,
    pub now_meta: TrackMeta,
    pub loop_current: bool,
}

impl Player {
    /// The indices point into the track list, the play order visits every
    /// track once (without shuffle it is the order of the list), the place
    /// in the play order is that of the current track, and a track that
    /// plays or is paused carries the timestamps that its position is
    /// derived from.
    pub open spec fn wf(&self) -> bool {
        &&& self.wf_list()
        &&& self.tracks@.len() > 0 ==> self.play_order@[self.play_pos as int] == self.current
        &&& self.wf_times()
    }

    /// A track that plays has a start; a paused one has a start and a
    /// pause.
    pub open spec fn wf_times(&self) -> bool {
        match self.state {
            PlayState::Stopped => true,
            PlayState::Playing => self.started_at is Some,
            PlayState::Paused => self.started_at is Some && self.paused_at is Some,
        }
    }

    /// The indices point into the track list and the play order visits
    /// every track once; without shuffle it is the order of the list.
    pub open spec fn wf_list(&self) -> bool {
        &&& is_permutation(self.play_order@, self.tracks@.len())
        &&& !self.shuffle ==> self.play_order@ == identity_order(self.tracks@.len())
        &&& self.tracks@.len() > 0 ==> {
            &&& self.current < self.tracks@.len()
            &&& self.selected < self.tracks@.len()
            &&& self.play_pos < self.tracks@.len()
        }
        &&& self.tracks@.len() == 0 ==> {
            &&& self.current == 0
            &&& self.selected == 0
            &&& self.play_pos == 0
            &&& !self.shuffle
        }
    }

    /// The position before any wrap: nothing when stopped; else the start
    /// offset plus the time since the start, up to the pause when paused,
    /// less the time spent paused.
    pub open spec fn spec_raw_position(&self, now: u64) -> u64 {
        match self.state {
            PlayState::Stopped => 0,
            PlayState::Paused => match (self.started_at, self.paused_at) {
                (Some(started), Some(paused)) => sat_add(
                    self.base_pos,
                    sat_sub(sat_sub(paused, started), self.total_pause),
                ),
                _ => self.base_pos,
            },
            PlayState::Playing => match self.started_at {
                Some(started) => sat_add(
                    self.base_pos,
                    sat_sub(sat_sub(now, started), self.total_pause),
                ),
                None => self.base_pos,
            },
        }
    }

    /// The position shown at time `now`: the raw position, taken modulo the
    /// track's length while looping over a track of known positive length.
    pub open spec fn spec_position(&self, now: u64) -> u64 {
        let raw = self.spec_raw_position(now);
        match self.total_duration {
            Some(total) => if self.loop_current && total > 0 {
                raw % total
            } else {
                raw
            },
            None => raw,
        }
    }

    /// A stopped player on `tracks` that stands on `start_index`, or on the
    /// last track where the list is shorter.
    pub fn new(tracks: Vec<Track>, start_index: usize) -> (player: Self)
        ensures
            player.wf(),
            player.tracks == tracks,
            player.current == if tracks@.len() == 0 {
                0
            } else if start_index < tracks@.len() {
                start_index
            } else {
                (tracks@.len() - 1) as usize
            },
            player.selected == player.current,
            player.play_pos == player.current,
            player.play_order@ == identity_order(tracks@.len()),
            !player.shuffle,
            player.state == PlayState::Stopped,
            player.gain_bits == UNITY_GAIN_BITS,
            player.base_pos == 0,
            player.started_at is None,
            player.paused_at is None,
            player.total_pause == 0,
            player.total_duration is None,
            player.now_meta == (TrackMeta {
                title: None,
                artist: None,
                album: None,
                duration_ns: None,
            }),
            !player.loop_current,
    {
        let len = tracks.len();
        let start = if len == 0 {
            0
        } else if start_index < len {
            start_index
        } else {
            len - 1
        };
        let play_order = sequential_order(len);
        Player {
            tracks,
            current: start,
            selected: start,
            play_order,
            play_pos: start,
            shuffle: false,
            state: PlayState::Stopped,
            gain_bits: UNITY_GAIN_BITS,
            base_pos: 0,
            started_at: None,
            paused_at: None,
            total_pause: 0,
            total_duration: None,
            now_meta: TrackMeta::empty(),
            loop_current: false,
        }
    }

    /// Whether the list holds any track.
    pub fn has_tracks(&self) -> (nonempty: bool)
        ensures
            nonempty == (self.tracks@.len() > 0),
    {
        self.tracks.len() > 0
    }

    /// The track that plays, if the list holds one.
    pub fn current_track(&self) -> (track: Option<&Track>)
        ensures
            track == if self.current < self.tracks@.len() {
                Some(&self.tracks@[self.current as int])
            } else {
                None
            },
    {
        if self.current < self.tracks.len() {
            Some(&self.tracks[self.current])
        } else {
            None
        }
    }

    /// The track that is highlighted, if the list holds one.
    pub fn selected_track(&self) -> (track: Option<&Track>)
        ensures
            track == if self.selected < self.tracks@.len() {
                Some(&self.tracks@[self.selected as int])
            } else {
                None
            },
    {
        if self.selected < self.tracks.len() {
            Some(&self.tracks[self.selected])
        } else {
            None
        }
    }

    /// Whether a track plays, is paused or is stopped.
    pub fn state(&self) -> (state: PlayState)
        ensures
            state == self.state,
    {
        self.state
    }

    /// The length of the current track in nanoseconds, where it is known.
    pub fn total_duration(&self) -> (total: Option<u64>)
        ensures
            total == self.total_duration,
    {
        self.total_duration
    }

    /// What is known of the track that plays, for display.
    pub fn now_playing_metadata(&self) -> (meta: &TrackMeta)
        ensures
            *meta == self.now_meta,
    {
        &self.now_meta
    }

    /// The playback position at time `now`, in nanoseconds.
    pub fn position(&self, now: u64) -> (pos: u64)
        ensures
            pos == self.spec_position(now),
    {
        let raw = match self.state {
            PlayState::Stopped => 0,
            PlayState::Paused => match (self.started_at, self.paused_at) {
                (Some(started), Some(paused)) => self.base_pos.saturating_add(
                    paused.saturating_sub(started).saturating_sub(self.total_pause),
                ),
                _ => self.base_pos,
            },
            PlayState::Playing => match self.started_at {
                Some(started) => self.base_pos.saturating_add(
                    now.saturating_sub(started).saturating_sub(self.total_pause),
                ),
                None => self.base_pos,
            },
        };
        match self.total_duration {
            Some(total) => if self.loop_current && total > 0 {
                raw % total
            } else {
                raw
            },
            None => raw,
        }
    }
}

/// Where a relative seek lands: `delta` nanoseconds from `pos`, not before
/// the start and, where the length is known, not past the end.
pub open spec fn spec_seek_target(pos: u64, delta: i64, total: Option<u64>) -> u64 {
    let moved: int = if pos + delta < 0 {
        0
    } else if pos + delta > u64::MAX {
        u64::MAX as int
    } else {
        pos + delta
    };
    match total {
        Some(limit) => if moved > limit {
            limit
        } else {
            moved as u64
        },
        None => moved as u64,
    }
}

/// One step forward in a play order of `len` tracks, wrapping at its end.
pub open spec fn spec_step_forward(pos: usize, len: nat) -> usize {
    if pos + 1 >= len {
        0
    } else {
        (pos + 1) as usize
    }
}

/// One step back in a play order of `len` tracks, wrapping at its front.
pub open spec fn spec_step_back(pos: usize, len: nat) -> usize {
    if pos == 0 {
        (len - 1) as usize
    } else {
        (pos - 1) as usize
    }
}

/// The index that a track has after the track at `removed` left a list of
/// `len` tracks, for the current track `current`.
pub open spec fn spec_current_after_delete(current: usize, removed: usize, len: nat) -> usize {
    if removed == current {
        if removed < len - 1 {
            removed
        } else {
            (len - 2) as usize
        }
    } else if removed < current {
        (current - 1) as usize
    } else {
        current
    }
}

impl Player {
    /// Whether `other` has the same tracks, order, shuffle mode and gain.
    pub open spec fn same_list(&self, other: &Self) -> bool {
        &&& self.tracks == other.tracks
        &&& self.play_order == other.play_order
        &&& self.shuffle == other.shuffle
        &&& self.gain_bits == other.gain_bits
    }

    /// Whether `other` has the same playback state, timestamps, metadata
    /// and loop mode.
    pub open spec fn same_timeline(&self, other: &Self) -> bool {
        &&& self.state == other.state
        &&& self.base_pos == other.base_pos
        &&& self.started_at == other.started_at
        &&& self.paused_at == other.paused_at
        &&& self.total_pause == other.total_pause
        &&& self.total_duration == other.total_duration
        &&& self.now_meta == other.now_meta
        &&& self.loop_current == other.loop_current
    }

    /// The request to start the current track at `start_pos`.
    pub open spec fn spec_request(&self, start_pos: u64) -> StartRequest {
        StartRequest { track: self.current, start_pos, looping: self.loop_current }
    }

    /// Moves the place in the play order to where the current track
    /// stands.
    fn sync_play_pos(&mut self)
        requires
            old(self).wf_list(),
            old(self).wf_times(),
        ensures
            final(self).wf(),
            final(self).same_list(old(self)),
            final(self).same_timeline(old(self)),
            final(self).current == old(self).current,
            final(self).selected == old(self).selected,
            old(self).tracks@.len() > 0 ==> final(self).play_order@[final(self).play_pos as int]
                == final(self).current,
            old(self).tracks@.len() > 0 && old(self).play_order@[old(self).play_pos as int]
                == old(self).current ==> final(self).play_pos == old(self).play_pos,
    {
        let mut i: usize = 0;
        while i < self.play_order.len()
            invariant
                i <= self.play_order@.len(),
                *self == *old(self),
                self.wf_list(),
                self.wf_times(),
                forall|k: int| 0 <= k < i ==> self.play_order@[k] != self.current,
            decreases self.play_order@.len() - i,
        {
            if self.play_order[i] == self.current {
                self.play_pos = i;
                return;
            }
            i += 1;
        }
        proof {
            if self.tracks@.len() > 0 {
                crate::util::lemma_permutation_contains(
                    self.play_order@,
                    self.tracks@.len(),
                    self.current,
                );
            }
        }
    }

    /// Stores the gain and hands it to the engine.
    pub fn set_gain<S>(&mut self, ctl: &mut AudioControl<S>, gain_bits: u32)
        ensures
            final(self).gain_bits == gain_bits,
            final(self).tracks == old(self).tracks,
            final(self).play_order == old(self).play_order,
            final(self).shuffle == old(self).shuffle,
            final(self).current == old(self).current,
            final(self).selected == old(self).selected,
            final(self).play_pos == old(self).play_pos,
            final(self).same_timeline(old(self)),
            final(ctl).gain_bits == spec_sanitize_gain(gain_bits),
            final(ctl).state == old(ctl).state,
            final(ctl).paused == old(ctl).paused,
            final(ctl).finished == old(ctl).finished,
            final(ctl).killed == old(ctl).killed,
    {
        self.gain_bits = gain_bits;
        ctl.set_gain(gain_bits);
    }

    /// Turns shuffle on or off. Turned on, the play order becomes a shuffle
    /// of the other tracks behind the current one, and the player stands at
    /// its front. Turned off, it becomes the order of the list, and the
    /// player stands at the current track. On an empty list shuffle stays
    /// off.
    pub fn toggle_shuffle(&mut self)
        requires
            old(self).wf(),
        ensures
            final(self).wf(),
            final(self).same_timeline(old(self)),
            final(self).tracks == old(self).tracks,
            final(self).gain_bits == old(self).gain_bits,
            final(self).current == old(self).current,
            final(self).selected == old(self).selected,
            final(self).shuffle == (old(self).tracks@.len() > 0 && !old(self).shuffle),
            final(self).shuffle ==> {
                &&& is_shuffled_order(
                    final(self).play_order@,
                    old(self).tracks@.len(),
                    old(self).current,
                )
                &&& final(self).play_order@[0] == old(self).current
                &&& final(self).play_pos == 0
            },
            !final(self).shuffle ==> {
                &&& final(self).play_order@ == identity_order(old(self).tracks@.len())
                &&& final(self).play_pos == old(self).current
            },
    {
        if !self.has_tracks() {
            self.shuffle = false;
            self.play_order = sequential_order(0);
            self.play_pos = 0;
            return;
        }
        self.shuffle = !self.shuffle;
        if self.shuffle {
            self.play_order = make_shuffled_order(self.tracks.len(), self.current);
            self.play_pos = 0;
        } else {
            self.play_order = sequential_order(self.tracks.len());
            self.play_pos = self.current;
        }
    }

    /// Makes the highlighted track the current one and asks for its start.
    pub fn play_selected(&mut self) -> (request: Option<StartRequest>)
        requires
            old(self).wf(),
        ensures
            final(self).wf(),
            final(self).same_list(old(self)),
            final(self).same_timeline(old(self)),
            final(self).selected == old(self).selected,
            old(self).tracks@.len() == 0 ==> request is None && *final(self) == *old(self),
            old(self).tracks@.len() > 0 ==> {
                &&& final(self).current == old(self).selected
                &&& final(self).play_order@[final(self).play_pos as int] == old(self).selected
                &&& request == Some(final(self).spec_request(0))
            },
    {
        if !self.has_tracks() {
            return None;
        }
        self.current = self.selected;
        self.sync_play_pos();
        Some(StartRequest { track: self.current, start_pos: 0, looping: self.loop_current })
    }

    /// The request to start the current track at `start_pos`.
    pub fn start_request(&self, start_pos: u64) -> (request: Result<StartRequest, PlayerError>)
        ensures
            request == if self.current < self.tracks@.len() {
                Ok::<StartRequest, PlayerError>(self.spec_request(start_pos))
            } else {
                Err::<StartRequest, PlayerError>(PlayerError::NoTrackSelected)
            },
    {
        if self.current < self.tracks.len() {
            Ok(StartRequest { track: self.current, start_pos, looping: self.loop_current })
        } else {
            Err(PlayerError::NoTrackSelected)
        }
    }

    /// Asks for the current track to start from its beginning.
    pub fn restart_current(&self) -> (request: Result<StartRequest, PlayerError>)
        ensures
            request == if self.current < self.tracks@.len() {
                Ok::<StartRequest, PlayerError>(self.spec_request(0))
            } else {
                Err::<StartRequest, PlayerError>(PlayerError::NoTrackSelected)
            },
    {
        self.start_request(0)
    }

    /// Toggles looping. With another track highlighted, that track becomes
    /// the current one, the place in the play order moves to it, and it
    /// starts looping from its beginning. Otherwise the loop mode of the
    /// current track flips, and the track starts again where it stands so
    /// that its source takes the new mode.
    pub fn toggle_loop_selected(&mut self, now: u64) -> (request: Option<StartRequest>)
        requires
            old(self).wf(),
        ensures
            final(self).wf(),
            final(self).same_list(old(self)),
            final(self).selected == old(self).selected,
            final(self).state == old(self).state,
            final(self).base_pos == old(self).base_pos,
            final(self).started_at == old(self).started_at,
            final(self).paused_at == old(self).paused_at,
            final(self).total_pause == old(self).total_pause,
            final(self).total_duration == old(self).total_duration,
            final(self).now_meta == old(self).now_meta,
            old(self).tracks@.len() == 0 ==> request is None && *final(self) == *old(self),
            old(self).tracks@.len() > 0 ==> {
                &&& final(self).current == old(self).selected
                &&& final(self).play_order@[final(self).play_pos as int] == final(self).current
            },
            old(self).tracks@.len() > 0 && old(self).selected != old(self).current ==> {
                &&& final(self).loop_current
                &&& request == Some(
                    StartRequest { track: old(self).selected, start_pos: 0, looping: true },
                )
            },
            old(self).tracks@.len() > 0 && old(self).selected == old(self).current ==> {
                &&& final(self).play_pos == old(self).play_pos
                &&& final(self).loop_current == !old(self).loop_current
                &&& request == Some(
                    StartRequest {
                        track: old(self).current,
                        start_pos: old(self).spec_position(now),
                        looping: !old(self).loop_current,
                    },
                )
            },
    {
        if !self.has_tracks() {
            return None;
        }
        if self.selected != self.current {
            self.current = self.selected;
            self.loop_current = true;
            self.sync_play_pos();
            return Some(StartRequest { track: self.current, start_pos: 0, looping: true });
        }
        let pos = self.position(now);
        self.loop_current = !self.loop_current;
        Some(StartRequest { track: self.current, start_pos: pos, looping: self.loop_current })
    }

    /// Takes what opening the current track at `start_pos` gave. A source
    /// goes to the engine with the gain applied again and the pause
    /// cleared, and the track plays from `start_pos` as of `now`. Without a
    /// source nothing changes: what played before plays on.
    pub fn start_track<S>(
        &mut self,
        ctl: &mut AudioControl<S>,
        start_pos: u64,
        opened: Option<OpenedTrack<S>>,
        now: u64,
    ) -> (result: Result<(), PlayerError>)
        requires
            old(self).wf(),
            old(ctl).wf(),
        ensures
            final(self).wf(),
            final(ctl).wf(),
            final(self).same_list(old(self)),
            final(self).current == old(self).current,
            final(self).selected == old(self).selected,
            final(self).play_pos == old(self).play_pos,
            final(self).loop_current == old(self).loop_current,
            result == if old(self).tracks@.len() == 0 {
                Err::<(), PlayerError>(PlayerError::NoTrackSelected)
            } else if opened is None {
                Err::<(), PlayerError>(PlayerError::OpenFailed)
            } else {
                Ok::<(), PlayerError>(())
            },
            result is Err ==> *final(self) == *old(self) && *final(ctl) == *old(ctl),
            result is Ok ==> {
                &&& final(self).state == PlayState::Playing
                &&& final(self).base_pos == start_pos
                &&& final(self).started_at == Some(now)
                &&& final(self).paused_at is None
                &&& final(self).total_pause == 0
                &&& final(self).now_meta == opened->0.meta
                &&& final(self).total_duration == if opened->0.total_ns is Some {
                    opened->0.total_ns
                } else {
                    opened->0.meta.duration_ns
                }
                &&& final(ctl).gain_bits == spec_sanitize_gain(old(self).gain_bits)
                &&& !final(ctl).paused
                &&& !final(ctl).finished
                &&& !final(ctl).killed
                &&& final(ctl).state.pending_source == Some(opened->0.source)
                &&& final(ctl).state.buffer@.len() == 0
                &&& final(ctl).state.generation == next_generation(old(ctl).state.generation)
                &&& final(ctl).state.capacity == old(ctl).state.capacity
            },
    {
        if !self.has_tracks() {
            return Err(PlayerError::NoTrackSelected);
        }
        match opened {
            None => Err(PlayerError::OpenFailed),
            Some(track) => {
                let OpenedTrack { source, total_ns, meta } = track;
                ctl.set_gain(self.gain_bits);
                ctl.set_paused(false);
                ctl.set_source(source);
                self.total_duration = match total_ns {
                    Some(total) => Some(total),
                    None => meta.duration_ns,
                };
                self.now_meta = meta;
                self.base_pos = start_pos;
                self.started_at = Some(now);
                self.paused_at = None;
                self.total_pause = 0;
                self.state = PlayState::Playing;
                Ok(())
            },
        }
    }

    /// Pauses a playing track and resumes a paused one; the time spent
    /// paused is added up so that the position does not move meanwhile. A
    /// stopped player stays as it is.
    pub fn toggle_pause<S>(&mut self, ctl: &mut AudioControl<S>, now: u64)
        requires
            old(self).wf(),
        ensures
            final(self).wf(),
            final(self).same_list(old(self)),
            final(self).current == old(self).current,
            final(self).selected == old(self).selected,
            final(self).play_pos == old(self).play_pos,
            final(self).base_pos == old(self).base_pos,
            final(self).started_at == old(self).started_at,
            final(self).total_duration == old(self).total_duration,
            final(self).now_meta == old(self).now_meta,
            final(self).loop_current == old(self).loop_current,
            final(ctl).state == old(ctl).state,
            final(ctl).gain_bits == old(ctl).gain_bits,
            final(ctl).finished == old(ctl).finished,
            final(ctl).killed == old(ctl).killed,
            match old(self).state {
                PlayState::Playing => {
                    &&& paused_from(*final(self), *old(self), now)
                    &&& final(ctl).paused
                },
                PlayState::Paused => {
                    &&& resumed_from(*final(self), *old(self), now)
                    &&& !final(ctl).paused
                },
                PlayState::Stopped => *final(self) == *old(self) && *final(ctl) == *old(ctl),
            },
    {
        match self.state {
            PlayState::Playing => {
                ctl.set_paused(true);
                self.state = PlayState::Paused;
                self.paused_at = Some(now);
            },
            PlayState::Paused => {
                ctl.set_paused(false);
                self.state = PlayState::Playing;
                match self.paused_at {
                    Some(paused) => {
                        self.total_pause = self.total_pause.saturating_add(
                            now.saturating_sub(paused),
                        );
                    },
                    None => {},
                }
                self.paused_at = None;
            },
            PlayState::Stopped => {},
        }
    }

    /// Stops playback: the engine is silenced at once and the timestamps
    /// are cleared. `state_free` says whether the engine's shared state
    /// could be had without waiting.
    pub fn stop_playback<S>(&mut self, ctl: &mut AudioControl<S>, state_free: bool)
        requires
            old(self).wf(),
            old(ctl).wf(),
        ensures
            final(self).wf(),
            final(ctl).wf(),
            final(self).same_list(old(self)),
            final(self).current == old(self).current,
            final(self).selected == old(self).selected,
            final(self).play_pos == old(self).play_pos,
            final(self).state == PlayState::Stopped,
            final(self).started_at is None,
            final(self).paused_at is None,
            final(self).total_pause == 0,
            final(self).base_pos == old(self).base_pos,
            final(self).total_duration == old(self).total_duration,
            final(self).now_meta == old(self).now_meta,
            final(self).loop_current == old(self).loop_current,
            final(ctl).killed,
            final(ctl).gain_bits == 0,
            !final(ctl).paused,
            final(ctl).finished == old(ctl).finished,
            final(ctl).state.capacity == old(ctl).state.capacity,
            state_free ==> {
                &&& final(ctl).state.pending_source is None
                &&& final(ctl).state.buffer@.len() == 0
                &&& final(ctl).state.generation == next_generation(old(ctl).state.generation)
            },
            !state_free ==> final(ctl).state == old(ctl).state,
    {
        ctl.stop_now(state_free);
        ctl.set_paused(false);
        self.mark_stopped();
    }

    /// Takes note that playback has stopped, for a caller that has silenced
    /// the engine by other means: the timestamps are cleared and nothing
    /// else changes.
    pub fn mark_stopped(&mut self)
        ensures
            final(self).same_list(old(self)),
            final(self).current == old(self).current,
            final(self).selected == old(self).selected,
            final(self).play_pos == old(self).play_pos,
            final(self).state == PlayState::Stopped,
            final(self).started_at is None,
            final(self).paused_at is None,
            final(self).total_pause == 0,
            final(self).base_pos == old(self).base_pos,
            final(self).total_duration == old(self).total_duration,
            final(self).now_meta == old(self).now_meta,
            final(self).loop_current == old(self).loop_current,
            old(self).wf() ==> final(self).wf(),
    {
        self.state = PlayState::Stopped;
        self.started_at = None;
        self.paused_at = None;
        self.total_pause = 0;
    }

    /// Whether the playing track has just run out. The engine's finished
    /// flag is read and cleared only while a track plays, so each end of a
    /// track is reported once.
    pub fn is_track_finished<S>(&self, ctl: &mut AudioControl<S>) -> (finished: bool)
        ensures
            finished == (self.state == PlayState::Playing && old(ctl).finished),
            final(ctl).finished == (self.state != PlayState::Playing && old(ctl).finished),
            final(ctl).state == old(ctl).state,
            final(ctl).paused == old(ctl).paused,
            final(ctl).gain_bits == old(ctl).gain_bits,
            final(ctl).killed == old(ctl).killed,
    {
        match self.state {
            PlayState::Playing => ctl.take_finished(),
            _ => false,
        }
    }

    /// Steps forward in the play order, wrapping at its end, and asks for
    /// the track there to start from its beginning.
    pub fn next_track(&mut self) -> (request: Option<StartRequest>)
        requires
            old(self).wf(),
        ensures
            final(self).wf(),
            final(self).same_list(old(self)),
            final(self).same_timeline(old(self)),
            old(self).tracks@.len() == 0 ==> request is None && *final(self) == *old(self),
            old(self).tracks@.len() > 0 ==> {
                &&& final(self).play_pos == spec_step_forward(
                    old(self).play_pos,
                    old(self).tracks@.len(),
                )
                &&& final(self).current == old(self).play_order@[final(self).play_pos as int]
                &&& final(self).selected == final(self).current
                &&& request == Some(final(self).spec_request(0))
            },
    {
        if !self.has_tracks() {
            return None;
        }
        let len = self.play_order.len();
        if self.play_pos + 1 >= len {
            self.play_pos = 0;
        } else {
            self.play_pos = self.play_pos + 1;
        }
        self.current = self.play_order[self.play_pos];
        self.selected = self.current;
        Some(StartRequest { track: self.current, start_pos: 0, looping: self.loop_current })
    }

    /// Steps back in the play order, wrapping at its front, and asks for
    /// the track there to start from its beginning.
    pub fn prev_track(&mut self) -> (request: Option<StartRequest>)
        requires
            old(self).wf(),
        ensures
            final(self).wf(),
            final(self).same_list(old(self)),
            final(self).same_timeline(old(self)),
            old(self).tracks@.len() == 0 ==> request is None && *final(self) == *old(self),
            old(self).tracks@.len() > 0 ==> {
                &&& final(self).play_pos == spec_step_back(
                    old(self).play_pos,
                    old(self).tracks@.len(),
                )
                &&& final(self).current == old(self).play_order@[final(self).play_pos as int]
                &&& final(self).selected == final(self).current
                &&& request == Some(final(self).spec_request(0))
            },
    {
        if !self.has_tracks() {
            return None;
        }
        let len = self.play_order.len();
        if self.play_pos == 0 {
            self.play_pos = len - 1;
        } else {
            self.play_pos = self.play_pos - 1;
        }
        self.current = self.play_order[self.play_pos];
        self.selected = self.current;
        Some(StartRequest { track: self.current, start_pos: 0, looping: self.loop_current })
    }

    /// Asks for the current track to start `delta` nanoseconds from where
    /// it stands at `now`, not before its start nor past its known end.
    pub fn seek_relative(&self, delta: i64, now: u64) -> (request: Option<StartRequest>)
        ensures
            request == if self.tracks@.len() == 0 {
                None
            } else {
                Some(
                    self.spec_request(
                        spec_seek_target(self.spec_position(now), delta, self.total_duration),
                    ),
                )
            },
    {
        if !self.has_tracks() {
            return None;
        }
        let pos = self.position(now);
        let moved: u64 = if delta < 0 {
            let back: u64 = if delta == i64::MIN {
                0x8000_0000_0000_0000
            } else {
                (-delta) as u64
            };
            pos.saturating_sub(back)
        } else {
            pos.saturating_add(delta as u64)
        };
        let target = match self.total_duration {
            Some(total) => if moved > total {
                total
            } else {
                moved
            },
            None => moved,
        };
        Some(StartRequest { track: self.current, start_pos: target, looping: self.loop_current })
    }

    /// Moves the highlight one track up, unless it is on the first.
    pub fn select_up(&mut self)
        ensures
            final(self).same_list(old(self)),
            final(self).same_timeline(old(self)),
            final(self).current == old(self).current,
            final(self).play_pos == old(self).play_pos,
            final(self).selected == if old(self).selected > 0 {
                (old(self).selected - 1) as usize
            } else {
                0
            },
            old(self).wf() ==> final(self).wf(),
    {
        if self.selected > 0 {
            self.selected -= 1;
        }
    }

    /// Moves the highlight one track down, unless it is on the last.
    pub fn select_down(&mut self)
        ensures
            final(self).same_list(old(self)),
            final(self).same_timeline(old(self)),
            final(self).current == old(self).current,
            final(self).play_pos == old(self).play_pos,
            final(self).selected == if old(self).selected + 1 < old(self).tracks@.len() {
                (old(self).selected + 1) as usize
            } else {
                old(self).selected
            },
            old(self).wf() ==> final(self).wf(),
    {
        if self.selected < self.tracks.len() && self.selected + 1 < self.tracks.len() {
            self.selected += 1;
        }
    }
}

impl Player {
    /// Rebuilds the play order for the list as it is now: a fresh shuffle
    /// behind the current track, or the order of the list.
    fn rebuild_order(&mut self)
        requires
            old(self).wf_times(),
            old(self).tracks@.len() > 0,
            old(self).current < old(self).tracks@.len(),
            old(self).selected < old(self).tracks@.len(),
        ensures
            final(self).wf(),
            final(self).same_timeline(old(self)),
            final(self).tracks == old(self).tracks,
            final(self).gain_bits == old(self).gain_bits,
            final(self).shuffle == old(self).shuffle,
            final(self).current == old(self).current,
            final(self).selected == old(self).selected,
            final(self).shuffle ==> {
                &&& is_shuffled_order(
                    final(self).play_order@,
                    old(self).tracks@.len(),
                    old(self).current,
                )
                &&& final(self).play_pos == 0
            },
            !final(self).shuffle ==> final(self).play_pos == old(self).current,
    {
        if self.shuffle {
            self.play_order = make_shuffled_order(self.tracks.len(), self.current);
            self.play_pos = 0;
        } else {
            self.play_order = sequential_order(self.tracks.len());
            self.play_pos = self.current;
        }
    }

    /// Takes the highlighted track off the list once its file has been
    /// removed. A removal that failed leaves everything as it was. A track
    /// that was the current one takes playback down with it; where it was
    /// playing or paused and tracks are left, the track that now stands in
    /// its place is asked to start.
    pub fn delete_selected<S>(
        &mut self,
        ctl: &mut AudioControl<S>,
        removal: Removal,
        state_free: bool,
    ) -> (result: Result<Option<StartRequest>, PlayerError>)
        requires
            old(self).wf(),
            old(ctl).wf(),
        ensures
            final(self).wf(),
            final(ctl).wf(),
            final(self).gain_bits == old(self).gain_bits,
            old(self).tracks@.len() == 0 ==> {
                &&& result == Ok::<Option<StartRequest>, PlayerError>(None)
                &&& *final(self) == *old(self)
                &&& *final(ctl) == *old(ctl)
            },
            old(self).tracks@.len() > 0 && removal == Removal::Failed ==> {
                &&& result == Err::<Option<StartRequest>, PlayerError>(PlayerError::DeleteFailed)
                &&& *final(self) == *old(self)
                &&& *final(ctl) == *old(ctl)
            },
            old(self).tracks@.len() > 0 && removal != Removal::Failed ==> {
                &&& result is Ok
                &&& final(self).tracks@ == old(self).tracks@.remove(old(self).selected as int)
            },
            old(self).tracks@.len() > 0 && removal != Removal::Failed && old(self).selected
                != old(self).current ==> {
                &&& final(self).same_timeline(old(self))
                &&& *final(ctl) == *old(ctl)
                &&& result == Ok::<Option<StartRequest>, PlayerError>(None)
            },
            old(self).tracks@.len() > 0 && removal != Removal::Failed && old(self).selected
                == old(self).current ==> {
                &&& final(self).state == PlayState::Stopped
                &&& !final(self).loop_current
                &&& final(self).base_pos == 0
                &&& final(self).started_at is None
                &&& final(self).paused_at is None
                &&& final(self).total_pause == 0
                &&& final(self).total_duration is None
                &&& final(self).now_meta == (TrackMeta {
                    title: None,
                    artist: None,
                    album: None,
                    duration_ns: None,
                })
                &&& final(ctl).killed
                &&& final(ctl).gain_bits == 0
                &&& final(ctl).paused == old(ctl).paused
                &&& final(ctl).finished == old(ctl).finished
                &&& final(ctl).state.capacity == old(ctl).state.capacity
                &&& state_free ==> {
                    &&& final(ctl).state.pending_source is None
                    &&& final(ctl).state.buffer@.len() == 0
                    &&& final(ctl).state.generation == next_generation(
                        old(ctl).state.generation,
                    )
                }
                &&& !state_free ==> final(ctl).state == old(ctl).state
                &&& result == Ok::<Option<StartRequest>, PlayerError>(
                    if old(self).tracks@.len() > 1 && old(self).state != PlayState::Stopped {
                        Some(
                            StartRequest {
                                track: final(self).current,
                                start_pos: 0,
                                looping: false,
                            },
                        )
                    } else {
                        None
                    },
                )
            },
            old(self).tracks@.len() == 1 && removal != Removal::Failed ==> {
                &&& final(self).current == 0
                &&& final(self).selected == 0
                &&& final(self).play_pos == 0
                &&& !final(self).shuffle
            },
            old(self).tracks@.len() > 1 && removal != Removal::Failed ==> {
                &&& final(self).shuffle == old(self).shuffle
                &&& final(self).current == spec_current_after_delete(
                    old(self).current,
                    old(self).selected,
                    old(self).tracks@.len(),
                )
                &&& final(self).selected == if old(self).selected == old(self).current
                    && old(self).state != PlayState::Stopped {
                    final(self).current
                } else if old(self).selected < old(self).tracks@.len() - 1 {
                    old(self).selected
                } else {
                    (old(self).tracks@.len() - 2) as usize
                }
                &&& final(self).shuffle ==> {
                    &&& is_shuffled_order(
                        final(self).play_order@,
                        (old(self).tracks@.len() - 1) as nat,
                        final(self).current,
                    )
                    &&& final(self).play_pos == 0
                }
                &&& !final(self).shuffle ==> final(self).play_pos == final(self).current
            },
    {
        if !self.has_tracks() {
            return Ok(None);
        }
        match removal {
            Removal::Failed => {
                return Err(PlayerError::DeleteFailed);
            },
            _ => {},
        }
        let idx = self.selected;
        let deleting_current = idx == self.current;
        let was_active = match self.state {
            PlayState::Stopped => false,
            _ => true,
        };
        if deleting_current {
            ctl.stop_now(state_free);
            self.state = PlayState::Stopped;
            self.loop_current = false;
            self.base_pos = 0;
            self.started_at = None;
            self.paused_at = None;
            self.total_pause = 0;
            self.total_duration = None;
            self.now_meta = TrackMeta::empty();
        }
        let removed = self.tracks.remove(idx);
        let len = self.tracks.len();
        if len == 0 {
            self.play_order = sequential_order(0);
            self.play_pos = 0;
            self.current = 0;
            self.selected = 0;
            self.shuffle = false;
            return Ok(None);
        }
        if !deleting_current {
            if idx < self.current {
                self.current = self.current - 1;
            }
        } else if idx > len - 1 {
            self.current = len - 1;
        }
        if self.selected > len - 1 {
            self.selected = len - 1;
        }
        if deleting_current && was_active {
            self.selected = self.current;
        }
        self.rebuild_order();
        if deleting_current && was_active {
            Ok(Some(StartRequest { track: self.current, start_pos: 0, looping: false }))
        } else {
            Ok(None)
        }
    }

    /// Takes over a list that a new scan has merged. A list that is no
    /// longer than the one at hand brought nothing new and changes nothing.
    /// Otherwise the tracks are replaced, the indices stay, and the play
    /// order is rebuilt for the longer list.
    pub fn refresh_tracks(&mut self, merged: Vec<Track>)
        requires
            old(self).wf(),
        ensures
            final(self).wf(),
            final(self).same_timeline(old(self)),
            final(self).gain_bits == old(self).gain_bits,
            final(self).shuffle == old(self).shuffle,
            final(self).current == old(self).current,
            final(self).selected == old(self).selected,
            merged@.len() <= old(self).tracks@.len() ==> *final(self) == *old(self),
            merged@.len() > old(self).tracks@.len() ==> {
                &&& final(self).tracks == merged
                &&& final(self).shuffle ==> {
                    &&& is_shuffled_order(
                        final(self).play_order@,
                        merged@.len(),
                        old(self).current,
                    )
                    &&& final(self).play_pos == 0
                }
                &&& !final(self).shuffle ==> final(self).play_pos == old(self).current
            },
    {
        if merged.len() <= self.tracks.len() {
            return;
        }
        self.tracks = merged;
        self.rebuild_order();
    }
}

/// Whether `after` is `before` paused at time `now`.
pub open spec fn paused_from(after: Player, before: Player, now: u64) -> bool {
    &&& before.state == PlayState::Playing
    &&& after.state == PlayState::Paused
    &&& after.paused_at == Some(now)
    &&& after.total_pause == before.total_pause
    &&& after.base_pos == before.base_pos
    &&& after.started_at == before.started_at
    &&& after.total_duration == before.total_duration
    &&& after.loop_current == before.loop_current
}

/// Whether `after` is `before` resumed at time `now`.
pub open spec fn resumed_from(after: Player, before: Player, now: u64) -> bool {
    &&& before.state == PlayState::Paused
    &&& after.state == PlayState::Playing
    &&& after.paused_at is None
    &&& before.paused_at is Some
    &&& after.total_pause == sat_add(before.total_pause, sat_sub(now, before.paused_at->0))
    &&& after.base_pos == before.base_pos
    &&& after.started_at == before.started_at
    &&& after.total_duration == before.total_duration
    &&& after.loop_current == before.loop_current
}

/// A paused track stands where it stood when it was paused, whatever the
/// clock says later.
pub proof fn lemma_pause_holds_position(before: Player, after: Player, now: u64, later: u64)
    requires
        before.wf(),
        paused_from(after, before, now),
    ensures
        after.spec_position(later) == before.spec_position(now),
{
}

/// A resumed track goes on from where it stood while paused: the time
/// spent paused does not count.
pub proof fn lemma_resume_continues(before: Player, after: Player, now: u64)
    requires
        before.wf(),
        resumed_from(after, before, now),
        before.started_at->0 <= before.paused_at->0 <= now,
    ensures
        after.spec_position(now) == before.spec_position(now),
{
}

/// A seek never lands past the known end of the track.
pub proof fn lemma_seek_stays_in_track(pos: u64, delta: i64, total: u64)
    ensures
        spec_seek_target(pos, delta, Some(total)) <= total,
        delta <= 0 ==> spec_seek_target(pos, delta, None) <= pos,
        delta >= 0 && pos <= total ==> spec_seek_target(pos, delta, Some(total)) >= pos,
{
}

/// While a track of known positive length loops, the position stays below
/// that length, whatever the clock says.
pub proof fn lemma_loop_wrap(player: Player, now: u64)
    requires
        player.loop_current,
        player.total_duration is Some,
        player.total_duration->0 > 0,
    ensures
        0 <= player.spec_position(now) < player.total_duration->0,
{
}

/// While a track plays without looping, a later reading of the clock never
/// gives an earlier position.
pub proof fn lemma_position_monotone(player: Player, earlier: u64, later: u64)
    requires
        player.state == PlayState::Playing,
        !player.loop_current,
        earlier <= later,
    ensures
        player.spec_position(earlier) <= player.spec_position(later),
{
}

} // verus!
