//! Finding out how long a track is when its container does not say.
//!
//! The length is looked for in the stream's metadata first; only when the
//! sample rate or the frame count is missing are the packets decoded and
//! their frames counted. Reading and decoding are the caller's work: this
//! module decides which stream to look at, whether a packet counts, and what
//! the length is once the frames are known.

use vstd::prelude::*;
use crate::time::NANOS_PER_SEC;

verus! {

/// Length in nanoseconds of `frames` frames played at `rate` frames per
/// second, rounded down to a whole nanosecond.
pub open spec fn span_of_frames(frames: nat, rate: nat) -> nat
    recommends
        rate > 0,
{
    frames * (NANOS_PER_SEC as nat) / rate
}

/// The length of `frames` frames at `rate`; none for a rate of zero.
pub open spec fn frames_length(frames: u64, rate: u32) -> Option<u128> {
    if rate > 0 {
        Some(span_of_frames(frames as nat, rate as nat) as u128)
    } else {
        None
    }
}

/// Length in nanoseconds of `frames` frames at `rate` frames per second,
/// in a width that holds the length of any count of frames. A rate of zero
/// gives no length.
pub fn length_of_frames(frames: u64, rate: u32) -> (length: Option<u128>)
    ensures
        length == frames_length(frames, rate),
        rate > 0 ==> length is Some && length->0 == span_of_frames(frames as nat, rate as nat),
{
    if rate == 0 {
        return None;
    }
    proof {
        lemma_span_fits(frames, rate);
    }
    let scaled: u128 = (frames as u128) * (NANOS_PER_SEC as u128);
    Some(scaled / (rate as u128))
}

/// The length of any 64-bit count of frames, at any rate but zero, fits 128
/// bits of nanoseconds.
pub proof fn lemma_span_fits(frames: u64, rate: u32)
    requires
        rate > 0,
    ensures
        frames * NANOS_PER_SEC <= u64::MAX * NANOS_PER_SEC,
        span_of_frames(frames as nat, rate as nat) <= frames * NANOS_PER_SEC,
        span_of_frames(frames as nat, rate as nat) <= u128::MAX,
        frames_length(frames, rate) == Some(span_of_frames(frames as nat, rate as nat) as u128),
        frames_length(frames, rate)->0 == span_of_frames(frames as nat, rate as nat),
{
    let scaled = frames as nat * (NANOS_PER_SEC as nat);
    assert(scaled <= u64::MAX * NANOS_PER_SEC) by (nonlinear_arith)
        requires
            scaled == frames as nat * (NANOS_PER_SEC as nat),
            frames <= u64::MAX,
    ;
    assert(scaled / (rate as nat) <= scaled) by (nonlinear_arith)
        requires
            rate > 0,
    ;
}

/// What a stream's header says of it.
#[derive(Debug, Clone, Copy, PartialEq, Eq, Structural)]
pub struct StreamInfo {
    /// The number by which packets name the stream.
    pub id: u32,
    /// Frames per second, where the header gives it.
    pub sample_rate: Option<u32>,
    /// Number of frames in the stream, where the header gives it.
    pub frame_count: Option<u64>,
}

/// `at` is the first position in `streams` of a stream with a sample rate.
pub open spec fn is_first_rated(streams: Seq<StreamInfo>, at: int) -> bool {
    &&& 0 <= at < streams.len()
    &&& streams[at].sample_rate is Some
    &&& forall|j: int| 0 <= j < at ==> (#[trigger] streams[j]).sample_rate is None
}

/// The stream to measure: the container's default stream where it names
/// one, else the first stream with a sample rate, else none.
pub fn choose_stream(default_stream: Option<StreamInfo>, streams: &Vec<StreamInfo>) -> (chosen:
    Option<StreamInfo>)
    ensures
        default_stream is Some ==> chosen == default_stream,
        default_stream is None ==> match chosen {
            Some(stream) => exists|at: int| is_first_rated(streams@, at) && streams@[at] == stream,
            None => forall|j: int|
                0 <= j < streams@.len() ==> (#[trigger] streams@[j]).sample_rate is None,
        },
{
    if default_stream.is_some() {
        return default_stream;
    }
    let mut at: usize = 0;
    while at < streams.len()
        invariant
            default_stream is None,
            at <= streams.len(),
            forall|j: int| 0 <= j < at ==> (#[trigger] streams@[j]).sample_rate is None,
        decreases streams.len() - at,
    {
        if streams[at].sample_rate.is_some() {
            assert(is_first_rated(streams@, at as int));
            return Some(streams[at]);
        }
        at += 1;
    }
    None
}

/// The count of decoded frames of one stream, with the sample rate as far
/// as it is known.
#[derive(Debug, Clone, Copy, PartialEq, Eq, Structural)]
pub struct FrameTally {
    /// The stream whose packets count.
    pub stream_id: u32,
    /// Frames decoded so far.
    pub total_frames: u64,
    /// The stream's sample rate: from its header, else from the first
    /// decoded packet.
    pub sample_rate: Option<u32>,
}

/// How the length of a stream is to be found.
#[derive(Debug, Clone, Copy, PartialEq, Eq, Structural)]
pub enum ProbePlan {
    /// The header gave both sample rate and frame count: this is the
    /// length, with nothing decoded.
    Answer(Option<u128>),
    /// Decode the stream's packets and count their frames in this tally.
    CountFrames(FrameTally),
}

/// The plan for `stream`: the length from the header where it gives both
/// the sample rate and the frame count, else a fresh tally for decoding.
pub open spec fn plan_for(stream: StreamInfo) -> ProbePlan {
    match (stream.sample_rate, stream.frame_count) {
        (Some(rate), Some(frames)) => ProbePlan::Answer(frames_length(frames, rate)),
        _ => ProbePlan::CountFrames(
            FrameTally { stream_id: stream.id, total_frames: 0, sample_rate: stream.sample_rate },
        ),
    }
}

/// Decides how the length of `stream` is to be found.
pub fn plan_probe(stream: StreamInfo) -> (plan: ProbePlan)
    ensures
        plan == plan_for(stream),
{
    match (stream.sample_rate, stream.frame_count) {
        (Some(rate), Some(frames)) => ProbePlan::Answer(length_of_frames(frames, rate)),
        _ => ProbePlan::CountFrames(
            FrameTally { stream_id: stream.id, total_frames: 0, sample_rate: stream.sample_rate },
        ),
    }
}

impl FrameTally {
    /// The tally after a packet of `frames` frames decoded at `rate`: the
    /// frames are added, and the rate is taken where none was known.
    pub open spec fn with_packet(self, frames: u64, rate: u32) -> FrameTally {
        FrameTally {
            stream_id: self.stream_id,
            total_frames: (self.total_frames + frames) as u64,
            sample_rate: match self.sample_rate {
                Some(known) => Some(known),
                None => Some(rate),
            },
        }
    }

    /// The length that the tally stands for: the counted frames over the
    /// sample rate; none while no sample rate is known.
    pub open spec fn length(self) -> Option<u128> {
        match self.sample_rate {
            Some(rate) => frames_length(self.total_frames, rate),
            None => None,
        }
    }

    /// Whether a packet of stream `packet_stream` belongs to the stream
    /// that is measured. Other packets are passed over undecoded.
    pub fn counts(&self, packet_stream: u32) -> (counted: bool)
        ensures
            counted == (packet_stream == self.stream_id),
    {
        packet_stream == self.stream_id
    }

    /// Adds a decoded packet of `frames` frames at `rate` frames per
    /// second. A packet that fails to decode is not added.
    pub fn add_packet(&mut self, frames: u64, rate: u32)
        requires
            old(self).total_frames + frames <= u64::MAX,
        ensures
            *final(self) == old(self).with_packet(frames, rate),
    {
        self.total_frames = self.total_frames + frames;
        if self.sample_rate.is_none() {
            self.sample_rate = Some(rate);
        }
    }

    /// The stream's length once all its packets are counted: the counted
    /// frames over the sample rate, which is zero where nothing was
    /// decoded. Unknown where no sample rate was ever found.
    pub fn finish(&self) -> (length: Option<u128>)
        ensures
            length == self.length(),
    {
        match self.sample_rate {
            Some(rate) => length_of_frames(self.total_frames, rate),
            None => None,
        }
    }
}

} // verus!
