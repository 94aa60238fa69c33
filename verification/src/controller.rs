//! The playback controller: one track at a time, and where in it playback
//! stands.
//!
//! The controller keeps the path of the loaded track, its length where that
//! is known, and a timeline from which the playing position is computed
//! without asking the audio device: an offset, the clock reading at which
//! playback last started from that offset, and the position at which it was
//! paused. Opening files, decoding and sound output are the caller's: the
//! caller reports what came of them and reads back what to do.

use vstd::prelude::*;
use vstd::string::StringExecFns;
use crate::time::{elapsed, elapsed_between, SEEK_TOLERANCE};

verus! {

/// Whether a session exists, and whether it runs.
#[derive(Debug, Clone, Copy, PartialEq, Eq, Structural)]
pub enum PlaybackState {
    /// No session.
    Stopped,
    /// A session that advances with the clock.
    Playing,
    /// A session held at a fixed position.
    Paused,
}

/// Why the controller could not be made, or a track not played. Each kind
/// carries what the failing part reported.
#[derive(Debug, PartialEq, Eq)]
pub enum PlaybackError {
    /// No audio output device could be bound.
    DeviceUnavailable(String),
    /// The file could not be opened.
    FileOpenError(String),
    /// The file's container or codec could not be read.
    DecodeError(String),
}

impl PlaybackError {
    /// The message for this error: what failed, then what the failing part
    /// reported.
    pub open spec fn message_text(self) -> Seq<char> {
        match self {
            PlaybackError::DeviceUnavailable(fault) => "Audio output error: "@ + fault@,
            PlaybackError::FileOpenError(fault) => "Failed to open file: "@ + fault@,
            PlaybackError::DecodeError(fault) => "Failed to decode audio: "@ + fault@,
        }
    }

    /// The message to show for this error.
    pub fn message(&self) -> (text: String)
        ensures
            text@ == self.message_text(),
    {
        match self {
            PlaybackError::DeviceUnavailable(fault) => String::from_str(
                "Audio output error: ",
            ).concat(fault.as_str()),
            PlaybackError::FileOpenError(fault) => String::from_str("Failed to open file: ").concat(
                fault.as_str(),
            ),
            PlaybackError::DecodeError(fault) => String::from_str(
                "Failed to decode audio: ",
            ).concat(fault.as_str()),
        }
    }
}

/// What came of opening and decoding a file.
pub enum LoadOutcome {
    /// The file is open and decodes. `container_duration` is the length the
    /// container reports, `probed_duration` the length found by probing the
    /// stream, each in nanoseconds and none where it is not known.
    Opened { container_duration: Option<u128>, probed_duration: Option<u128> },
    /// The file could not be opened.
    OpenFailed(String),
    /// The file could not be decoded.
    DecodeFailed(String),
}

/// A session to build: open `path`, skip `position` nanoseconds of it, and
/// start it running, or paused where `resume_paused` is set.
pub struct PlayRequest {
    pub path: String,
    pub position: u64,
    pub resume_paused: bool,
}

/// A [`PlayRequest`] as plain data.
pub struct PlayRequestView {
    pub path: Seq<char>,
    pub position: u64,
    pub resume_paused: bool,
}

impl View for PlayRequest {
    type V = PlayRequestView;

    open spec fn view(&self) -> PlayRequestView {
        PlayRequestView {
            path: self.path@,
            position: self.position,
            resume_paused: self.resume_paused,
        }
    }
}

/// The controller as plain data.
#[verifier::ext_equal]
pub struct TimelineView {
    /// Path of the loaded track.
    pub current_path: Option<Seq<char>>,
    /// Length of the loaded track in nanoseconds, where known.
    pub total_duration: Option<u128>,
    /// Position at which playback last started.
    pub base_offset: u64,
    /// Clock reading at which playback last started; set while playing.
    pub start_instant: Option<u64>,
    /// Position at which playback is held; set while paused.
    pub paused_offset: Option<u64>,
}

impl TimelineView {
    /// A session never both runs and is held, and without a session the
    /// offset is zero.
    pub open spec fn wf(self) -> bool {
        &&& !(self.start_instant is Some && self.paused_offset is Some)
        &&& self.start_instant is None && self.paused_offset is None ==> self.base_offset == 0
    }

    /// Paused where a held position is set, playing where a start reading is
    /// set, stopped otherwise.
    pub open spec fn state(self) -> PlaybackState {
        if self.paused_offset is Some {
            PlaybackState::Paused
        } else if self.start_instant is Some {
            PlaybackState::Playing
        } else {
            PlaybackState::Stopped
        }
    }

    /// The playing position at clock reading `now`: the held position while
    /// paused; the offset plus the time since playback started while
    /// playing; the offset otherwise.
    pub open spec fn position_at(self, now: u64) -> int {
        match self.paused_offset {
            Some(held) => held as int,
            None => match self.start_instant {
                Some(start) => self.base_offset + elapsed_between(start, now),
                None => self.base_offset as int,
            },
        }
    }

    /// The position at `now` fits the nanosecond clock.
    pub open spec fn position_fits(self, now: u64) -> bool {
        self.position_at(now) <= u64::MAX
    }

    /// No track, no session, offset zero.
    pub open spec fn initial() -> TimelineView {
        TimelineView {
            current_path: None,
            total_duration: None,
            base_offset: 0,
            start_instant: None,
            paused_offset: None,
        }
    }

    /// The session is gone; the path and the known length stay.
    pub open spec fn torn_down(self) -> TimelineView {
        TimelineView { base_offset: 0, start_instant: None, paused_offset: None, ..self }
    }

    /// After `pause` at `now`: a playing session is held at its position;
    /// anything else is unchanged.
    pub open spec fn paused_at(self, now: u64) -> TimelineView {
        if self.state() == PlaybackState::Playing {
            TimelineView {
                start_instant: None,
                paused_offset: Some(self.position_at(now) as u64),
                ..self
            }
        } else {
            self
        }
    }

    /// After `resume` at `now`: a held session runs on from the held
    /// position; anything else is unchanged.
    pub open spec fn resumed_at(self, now: u64) -> TimelineView {
        match self.paused_offset {
            Some(held) => TimelineView {
                base_offset: held,
                start_instant: Some(now),
                paused_offset: None,
                ..self
            },
            None => self,
        }
    }

    /// Whether the known length can be kept for a session on `path`: it is
    /// known and `path` is the loaded track.
    pub open spec fn keeps_duration(self, path: Seq<char>) -> bool {
        self.current_path == Some(path) && self.total_duration is Some
    }

    /// The length to record for a session on `path`: the known length where
    /// it can be kept, else the container's, else the probed one.
    pub open spec fn duration_for(
        self,
        path: Seq<char>,
        container_duration: Option<u128>,
        probed_duration: Option<u128>,
    ) -> Option<u128> {
        if self.keeps_duration(path) {
            self.total_duration
        } else if container_duration is Some {
            container_duration
        } else {
            probed_duration
        }
    }

    /// After a session on `path` was built at `now`, starting at `position`.
    pub open spec fn started(
        self,
        path: Seq<char>,
        position: u64,
        resume_paused: bool,
        now: u64,
        container_duration: Option<u128>,
        probed_duration: Option<u128>,
    ) -> TimelineView {
        TimelineView {
            current_path: Some(path),
            total_duration: self.duration_for(path, container_duration, probed_duration),
            base_offset: position,
            start_instant: if resume_paused {
                None
            } else {
                Some(now)
            },
            paused_offset: if resume_paused {
                Some(position)
            } else {
                None
            },
        }
    }

    /// `target` cut down to the track's length where that is known.
    pub open spec fn clamped(self, target: u64) -> u64 {
        match self.total_duration {
            Some(length) => if target > length {
                length as u64
            } else {
                target
            },
            None => target,
        }
    }

    /// `target` lies less than the seek tolerance from the position at
    /// `now`.
    pub open spec fn near_position(self, target: u64, now: u64) -> bool {
        -(SEEK_TOLERANCE as int) < target - self.position_at(now) < SEEK_TOLERANCE as int
    }

    /// The session that a seek to `target` at `now` asks for; none where no
    /// track is loaded or the clamped target is near the position.
    pub open spec fn seek_request(self, target: u64, now: u64) -> Option<PlayRequestView> {
        match self.current_path {
            Some(path) => if self.near_position(self.clamped(target), now) {
                None
            } else {
                Some(
                    PlayRequestView {
                        path,
                        position: self.clamped(target),
                        resume_paused: self.state() == PlaybackState::Paused,
                    },
                )
            },
            None => None,
        }
    }

    /// The session that rebuilds the current one at `now`, at the same
    /// position and in the same pause state; none where no track is loaded.
    pub open spec fn reload_request(self, now: u64) -> Option<PlayRequestView> {
        match self.current_path {
            Some(path) => Some(
                PlayRequestView {
                    path,
                    position: self.position_at(now) as u64,
                    resume_paused: self.state() == PlaybackState::Paused,
                },
            ),
            None => None,
        }
    }
}

/// The playback controller.
pub struct PlaybackController {
    current_path: Option<String>,
    total_duration: Option<u128>,
    base_offset: u64,
    start_instant: Option<u64>,
    paused_offset: Option<u64>,
}

impl View for PlaybackController {
    type V = TimelineView;

    closed spec fn view(&self) -> TimelineView {
        TimelineView {
            current_path: match self.current_path {
                Some(path) => Some(path@),
                None => None,
            },
            total_duration: self.total_duration,
            base_offset: self.base_offset,
            start_instant: self.start_instant,
            paused_offset: self.paused_offset,
        }
    }
}

impl PlaybackController {
    /// A controller with no track and no session. `device_fault` is what
    /// binding the audio output device reported: none where it is bound,
    /// else the fault, with which construction fails.
    pub fn new(device_fault: Option<String>) -> (made: Result<Self, PlaybackError>)
        ensures
            match device_fault {
                None => made is Ok && made->Ok_0@ == TimelineView::initial(),
                Some(fault) => made == Err::<Self, PlaybackError>(
                    PlaybackError::DeviceUnavailable(fault),
                ),
            },
            made is Ok ==> made->Ok_0@.wf(),
    {
        match device_fault {
            Some(fault) => Err(PlaybackError::DeviceUnavailable(fault)),
            None => Ok(
                PlaybackController {
                    current_path: None,
                    total_duration: None,
                    base_offset: 0,
                    start_instant: None,
                    paused_offset: None,
                },
            ),
        }
    }

    /// Stopped, playing or paused.
    pub fn state(&self) -> (state: PlaybackState)
        ensures
            state == self@.state(),
    {
        if self.paused_offset.is_some() {
            PlaybackState::Paused
        } else if self.start_instant.is_some() {
            PlaybackState::Playing
        } else {
            PlaybackState::Stopped
        }
    }

    /// The playing position at clock reading `now`, in nanoseconds, where
    /// it fits the nanosecond clock; [`PlaybackController::position_in_full`]
    /// gives it in every case.
    pub fn current_position(&self, now: u64) -> (position: u64)
        requires
            self@.position_fits(now),
        ensures
            position == self@.position_at(now),
    {
        match self.paused_offset {
            Some(held) => held,
            None => match self.start_instant {
                Some(start) => self.base_offset + elapsed(start, now),
                None => self.base_offset,
            },
        }
    }

    /// The playing position at clock reading `now`, in nanoseconds and in a
    /// width that holds it whatever the offset and the clock are.
    pub fn position_in_full(&self, now: u64) -> (position: u128)
        ensures
            position == self@.position_at(now),
    {
        match self.paused_offset {
            Some(held) => held as u128,
            None => match self.start_instant {
                Some(start) => self.base_offset as u128 + elapsed(start, now) as u128,
                None => self.base_offset as u128,
            },
        }
    }

    /// Ends the session and forgets the track: the controller is as new.
    pub fn stop(&mut self)
        ensures
            final(self)@ == TimelineView::initial(),
            final(self)@.wf(),
    {
        self.current_path = None;
        self.total_duration = None;
        self.start_instant = None;
        self.paused_offset = None;
        self.base_offset = 0;
    }

    /// Holds a playing session at its position at `now`. Returns whether
    /// there was a playing session to hold; a paused or stopped controller
    /// is left as it is.
    pub fn pause(&mut self, now: u64) -> (held: bool)
        requires
            old(self)@.wf(),
            old(self)@.position_fits(now),
        ensures
            final(self)@ == old(self)@.paused_at(now),
            final(self)@.wf(),
            held == (old(self)@.state() == PlaybackState::Playing),
    {
        if self.paused_offset.is_none() && self.start_instant.is_some() {
            let position = self.current_position(now);
            self.paused_offset = Some(position);
            self.start_instant = None;
            true
        } else {
            false
        }
    }

    /// Lets a held session run on from `now`. Returns whether there was a
    /// held session; a playing or stopped controller is left as it is.
    pub fn resume(&mut self, now: u64) -> (released: bool)
        requires
            old(self)@.wf(),
        ensures
            final(self)@ == old(self)@.resumed_at(now),
            final(self)@.wf(),
            released == (old(self)@.state() == PlaybackState::Paused),
    {
        match self.paused_offset {
            Some(held) => {
                self.base_offset = held;
                self.paused_offset = None;
                self.start_instant = Some(now);
                true
            },
            None => false,
        }
    }

    /// Pauses where sound is coming out, resumes otherwise: what one
    /// play/pause control does. `drained` tells whether the output has run
    /// out of queued audio. Returns the state after.
    pub fn toggle_pause(&mut self, now: u64, drained: bool) -> (state: PlaybackState)
        requires
            old(self)@.wf(),
            old(self)@.position_fits(now),
        ensures
            final(self)@.wf(),
            final(self)@ == if old(self)@.state() == PlaybackState::Playing && !drained {
                old(self)@.paused_at(now)
            } else {
                old(self)@.resumed_at(now)
            },
            state == final(self)@.state(),
    {
        if self.is_playing(drained) {
            self.pause(now);
        } else {
            self.resume(now);
        }
        self.state()
    }

    /// Whether a session on `path` still needs the track's length: it does
    /// unless `path` is the loaded track and its length is known. Only then
    /// need the caller ask the container, and probe where that says
    /// nothing.
    pub fn needs_duration(&self, path: &str) -> (needed: bool)
        ensures
            needed == !self@.keeps_duration(path@),
    {
        if self.total_duration.is_none() {
            return true;
        }
        match &self.current_path {
            Some(loaded) => !same_text(loaded.as_str(), path),
            None => true,
        }
    }

    /// Records what came of building a session on `path` at clock reading
    /// `now`. Whatever session there was is gone first. Where the file
    /// opened, the track is loaded with its length (kept, reported or
    /// probed, in that order), and playback stands at `position`: running,
    /// or held where `resume_paused` is set. Where it did not, the error
    /// says which step failed, no session is left, and the loaded track and
    /// its length stay as they were.
    pub fn play_from(
        &mut self,
        path: &str,
        position: u64,
        resume_paused: bool,
        now: u64,
        outcome: LoadOutcome,
    ) -> (played: Result<(), PlaybackError>)
        requires
            old(self)@.wf(),
        ensures
            final(self)@.wf(),
            match outcome {
                LoadOutcome::Opened { container_duration, probed_duration } => {
                    &&& played is Ok
                    &&& final(self)@ == old(self)@.started(
                        path@,
                        position,
                        resume_paused,
                        now,
                        container_duration,
                        probed_duration,
                    )
                },
                LoadOutcome::OpenFailed(fault) => {
                    &&& played == Err::<(), PlaybackError>(PlaybackError::FileOpenError(fault))
                    &&& final(self)@ == old(self)@.torn_down()
                },
                LoadOutcome::DecodeFailed(fault) => {
                    &&& played == Err::<(), PlaybackError>(PlaybackError::DecodeError(fault))
                    &&& final(self)@ == old(self)@.torn_down()
                },
            },
    {
        self.start_instant = None;
        self.paused_offset = None;
        self.base_offset = 0;
        match outcome {
            LoadOutcome::OpenFailed(fault) => Err(PlaybackError::FileOpenError(fault)),
            LoadOutcome::DecodeFailed(fault) => Err(PlaybackError::DecodeError(fault)),
            LoadOutcome::Opened { container_duration, probed_duration } => {
                if self.needs_duration(path) {
                    self.total_duration = if container_duration.is_some() {
                        container_duration
                    } else {
                        probed_duration
                    };
                }
                self.current_path = Some(path.to_owned());
                self.base_offset = position;
                if resume_paused {
                    self.paused_offset = Some(position);
                } else {
                    self.start_instant = Some(now);
                }
                Ok(())
            },
        }
    }

    /// As [`PlaybackController::play_from`], from the start of the track
    /// and running.
    pub fn play_file(&mut self, path: &str, now: u64, outcome: LoadOutcome) -> (played: Result<
        (),
        PlaybackError,
    >)
        requires
            old(self)@.wf(),
        ensures
            final(self)@.wf(),
            match outcome {
                LoadOutcome::Opened { container_duration, probed_duration } => {
                    &&& played is Ok
                    &&& final(self)@ == old(self)@.started(
                        path@,
                        0,
                        false,
                        now,
                        container_duration,
                        probed_duration,
                    )
                },
                LoadOutcome::OpenFailed(fault) => {
                    &&& played == Err::<(), PlaybackError>(PlaybackError::FileOpenError(fault))
                    &&& final(self)@ == old(self)@.torn_down()
                },
                LoadOutcome::DecodeFailed(fault) => {
                    &&& played == Err::<(), PlaybackError>(PlaybackError::DecodeError(fault))
                    &&& final(self)@ == old(self)@.torn_down()
                },
            },
    {
        self.play_from(path, 0, false, now, outcome)
    }

    /// Decides a seek to `target` at clock reading `now`. The target is cut
    /// down to the track's length where that is known. With no track
    /// loaded, or with the target less than ten milliseconds from the
    /// position, nothing is to be done; else the session is to be rebuilt
    /// at the target, paused if it is paused now.
    pub fn seek_to(&self, target: u64, now: u64) -> (request: Option<PlayRequest>)
        ensures
            request is Some <==> self@.seek_request(target, now) is Some,
            request is Some ==> request->0@ == self@.seek_request(target, now)->0,
            self@.near_position(self@.clamped(target), now) ==> request is None,
    {
        let clamped: u64 = match self.total_duration {
            Some(length) => if target as u128 > length {
                length as u64
            } else {
                target
            },
            None => target,
        };
        match &self.current_path {
            Some(path) => {
                let position: u128 = self.position_in_full(now);
                let goal: u128 = clamped as u128;
                let apart: u128 = if goal >= position {
                    goal - position
                } else {
                    position - goal
                };
                if apart < SEEK_TOLERANCE as u128 {
                    None
                } else {
                    Some(
                        PlayRequest {
                            path: path.clone(),
                            position: clamped,
                            resume_paused: self.paused_offset.is_some(),
                        },
                    )
                }
            },
            None => None,
        }
    }

    /// The session that rebuilds the current one at clock reading `now`,
    /// as a change of the equalizer's gains calls for: same track, same
    /// position, same pause state. None where no track is loaded.
    pub fn reload_request(&self, now: u64) -> (request: Option<PlayRequest>)
        requires
            self@.wf(),
            self@.position_fits(now),
        ensures
            request is Some <==> self@.reload_request(now) is Some,
            request is Some ==> request->0@ == self@.reload_request(now)->0,
    {
        match &self.current_path {
            Some(path) => Some(
                PlayRequest {
                    path: path.clone(),
                    position: self.current_position(now),
                    resume_paused: self.paused_offset.is_some(),
                },
            ),
            None => None,
        }
    }

    /// Whether sound is coming out: a session is playing and the output,
    /// as `drained` reports it, has not run out of queued audio.
    pub fn is_playing(&self, drained: bool) -> (playing: bool)
        ensures
            playing == (self@.state() == PlaybackState::Playing && !drained),
    {
        self.paused_offset.is_none() && self.start_instant.is_some() && !drained
    }

    /// Whether the track has played to its end: a session is playing and
    /// the output, as `drained` reports it, has run out of queued audio.
    pub fn track_ended(&self, drained: bool) -> (ended: bool)
        ensures
            ended == (self@.state() == PlaybackState::Playing && drained),
    {
        self.paused_offset.is_none() && self.start_instant.is_some() && drained
    }

    /// The length of the loaded track in nanoseconds, where known.
    pub fn total_duration(&self) -> (length: Option<u128>)
        ensures
            length == self@.total_duration,
    {
        self.total_duration
    }

    /// The path of the loaded track.
    pub fn current_path(&self) -> (path: Option<&String>)
        ensures
            path is Some <==> self@.current_path is Some,
            path is Some ==> path->0@ == self@.current_path->0,
    {
        self.current_path.as_ref()
    }
}

/// Whether two texts are the same.
fn same_text(left: &str, right: &str) -> (same: bool)
    ensures
        same == (left@ == right@),
{
    let left_owned = left.to_owned();
    let right_owned = right.to_owned();
    left_owned == right_owned
}

/// The position never runs backwards as the clock advances, and it stands
/// still unless a session is playing.
pub proof fn lemma_position_follows_clock(timeline: TimelineView, earlier: u64, later: u64)
    requires
        earlier <= later,
    ensures
        timeline.position_at(earlier) <= timeline.position_at(later),
        timeline.state() != PlaybackState::Playing ==> timeline.position_at(earlier)
            == timeline.position_at(later),
        timeline.state() == PlaybackState::Playing && timeline.start_instant->0 <= earlier
            ==> timeline.position_at(later) == timeline.position_at(earlier) + (later - earlier),
{
}

/// Pausing holds the position of that moment, whatever the clock shows
/// later; resuming takes playback up at the held position, from where it
/// advances with the clock.
pub proof fn lemma_pause_and_resume_keep_position(
    timeline: TimelineView,
    paused: u64,
    resumed: u64,
    later: u64,
)
    requires
        timeline.wf(),
        timeline.state() == PlaybackState::Playing,
        timeline.position_fits(paused),
        resumed <= later,
    ensures
        timeline.paused_at(paused).position_at(later) == timeline.position_at(paused),
        timeline.paused_at(paused).resumed_at(resumed).position_at(resumed) == timeline.position_at(
            paused,
        ),
        timeline.paused_at(paused).resumed_at(resumed).position_at(later) == timeline.position_at(
            paused,
        ) + (later - resumed),
{
}

/// Once the session that a seek asks for is built, at the clock reading of
/// the seek, the position is the target, cut down to the track's length
/// where that is known.
pub proof fn lemma_seek_lands_on_target(
    timeline: TimelineView,
    target: u64,
    now: u64,
    container_duration: Option<u128>,
    probed_duration: Option<u128>,
)
    requires
        timeline.wf(),
        timeline.seek_request(target, now) is Some,
    ensures
        ({
            let request = timeline.seek_request(target, now)->0;
            let after = timeline.started(
                request.path,
                request.position,
                request.resume_paused,
                now,
                container_duration,
                probed_duration,
            );
            &&& after.wf()
            &&& after.position_at(now) == timeline.clamped(target)
            &&& after.current_path == timeline.current_path
            &&& (after.state() == PlaybackState::Paused) == (timeline.state()
                == PlaybackState::Paused)
        }),
{
}

/// A seek that ends less than ten milliseconds from the position asks for
/// no new session.
pub proof fn lemma_near_seek_keeps_session(timeline: TimelineView, target: u64, now: u64)
    requires
        timeline.near_position(timeline.clamped(target), now),
    ensures
        timeline.seek_request(target, now) is None,
{
}

} // verus!
