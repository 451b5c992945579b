//! The decoder session: what is kept between two pulls of a sample, and
//! what each answer of the container reader and of the codec does to it.
//!
//! Reading packets and decoding them is the caller's work. The session says
//! what to do with each outcome, keeps the queue of decoded samples, the
//! skip budget of the start offset and the count of bad frames in a row.
use std::collections::VecDeque;
use vstd::prelude::*;

verus! {

/// Bad frames in a row that a session survives.
pub const MAX_CONSECUTIVE_ERRORS: u32 = 1000;

/// Packets decoded while priming a session before the file is given up.
pub const PRIME_PACKETS: u32 = 250;

/// Nanoseconds in a second.
pub const NANOS_PER_SECOND: u64 = 1_000_000_000;

/// Sample rate taken where the container names none.
pub const FALLBACK_SAMPLE_RATE: u32 = 48000;

/// Channel count taken where the container names none.
pub const FALLBACK_CHANNELS: u16 = 2;

/// Why a stream stopped giving audio.
#[derive(Clone, Copy, Debug, PartialEq, Eq, Structural)]
pub enum EndReason {
    /// The reader could not read on: taken as the end of the stream.
    EndOfStream,
    /// More bad frames in a row than a usable stream has.
    TooManyErrors,
    /// The reader or the codec failed in another way.
    Failed,
}

/// Why a file could not be opened for playback.
#[derive(Clone, Copy, Debug, PartialEq, Eq, Structural)]
pub enum OpenError {
    /// The container holds no track.
    NoTracks,
    /// Priming found no frame that decodes.
    NoDecodableAudio,
    /// Neither decoder could be set up for the file.
    Unsupported,
}

/// What the container reader answered when asked for the next packet.
#[derive(Clone, Copy, Debug, PartialEq, Eq, Structural)]
pub enum ReadOutcome {
    /// A packet of the track with this identifier.
    Packet { track_id: u32 },
    /// An I/O error.
    IoError,
    /// The decoder has to be reset before reading on.
    ResetRequired,
    /// Any other error.
    Failed,
}

/// What the codec answered when given a packet.
pub enum DecodeOutcome {
    /// Decoded audio, already interleaved.
    Audio { sample_rate: u32, channels: u16, samples: Vec<u32> },
    /// A frame that does not decode.
    BadFrame,
    /// The decoder has to be reset before reading on.
    ResetRequired,
    /// Any other error.
    Failed,
}

/// What to do next while looking for more audio.
#[derive(Clone, Copy, Debug, PartialEq, Eq, Structural)]
pub enum DecodeStep {
    /// Read the next packet.
    ReadNext,
    /// Reset the decoder, then read the next packet.
    ResetThenRead,
    /// Decode the packet just read.
    DecodePacket,
    /// Audio was queued: the search is over.
    Filled,
    /// The stream has ended.
    Ended(EndReason),
}

/// What a pull of one sample gave.
#[derive(Clone, Copy, Debug, PartialEq, Eq, Structural)]
pub enum PullStep {
    /// The next sample.
    Sample(u32),
    /// The queue ran dry: more audio has to be decoded first.
    NeedDecode,
    /// The stream has ended and the file is to start over: open it again,
    /// then pull once more.
    Reopen,
    /// The stream has ended for good: there is no further sample.
    End,
}

/// What priming does next.
#[derive(Clone, Copy, Debug, PartialEq, Eq, Structural)]
pub enum PrimeStep {
    /// Audio is queued: the session is ready.
    Ready,
    /// Look for more audio once more.
    Attempt,
    /// Give the file up.
    Fail(OpenError),
}

/// Which decoder plays a file.
#[derive(Clone, Copy, Debug, PartialEq, Eq, Structural)]
pub enum DecoderPath {
    /// The streaming decoder, which skips bad frames.
    Primary,
    /// The general-purpose decoder.
    Fallback,
}

/// Frames of the start offset: `start_ns` nanoseconds at `sample_rate`,
/// rounded to the nearest frame.
pub open spec fn spec_skip_frames(start_ns: u64, sample_rate: u32) -> nat {
    (((start_ns as nat) * (sample_rate as nat) + 500_000_000) / 1_000_000_000) as nat
}

/// Samples to discard for a start offset: the frames of the offset times the
/// channel count, as far as 64 bits hold it.
pub open spec fn spec_skip_budget(start_ns: u64, sample_rate: u32, channels: u16) -> nat {
    let frames = spec_skip_frames(start_ns, sample_rate);
    let capped = if frames > u64::MAX as nat {
        u64::MAX as nat
    } else {
        frames
    };
    if capped * (channels as nat) > u64::MAX as nat {
        u64::MAX as nat
    } else {
        capped * (channels as nat)
    }
}

/// The number of samples to discard before the first one is handed out.
pub fn skip_budget(start_ns: u64, sample_rate: u32, channels: u16) -> (budget: u64)
    ensures
        budget as nat == spec_skip_budget(start_ns, sample_rate, channels),
{
    assert((start_ns as int) * (sample_rate as int) <= 0xFFFF_FFFF_FFFF_FFFF * 0xFFFF_FFFF)
        by (nonlinear_arith)
        requires
            start_ns <= 0xFFFF_FFFF_FFFF_FFFFu64,
            sample_rate <= 0xFFFF_FFFFu32,
    ;
    let scaled: u128 = (start_ns as u128) * (sample_rate as u128);
    let frames: u128 = (scaled + 500_000_000) / 1_000_000_000;
    let capped: u64 = if frames > u64::MAX as u128 {
        u64::MAX
    } else {
        frames as u64
    };
    assert((capped as int) * (channels as int) <= 0xFFFF_FFFF_FFFF_FFFF * 0xFFFF)
        by (nonlinear_arith)
        requires
            capped <= 0xFFFF_FFFF_FFFF_FFFFu64,
            channels <= 0xFFFFu16,
    ;
    let samples: u128 = (capped as u128) * (channels as u128);
    if samples > u64::MAX as u128 {
        u64::MAX
    } else {
        samples as u64
    }
}

/// The track to play: the one marked default, else the first.
pub fn select_track(default_track: Option<u32>, first_track: Option<u32>) -> (chosen: Result<
    u32,
    OpenError,
>)
    ensures
        chosen == match default_track {
            Some(id) => Ok::<u32, OpenError>(id),
            None => match first_track {
                Some(id) => Ok::<u32, OpenError>(id),
                None => Err::<u32, OpenError>(OpenError::NoTracks),
            },
        },
{
    match default_track {
        Some(id) => Ok(id),
        None => match first_track {
            Some(id) => Ok(id),
            None => Err(OpenError::NoTracks),
        },
    }
}

/// Whole nanoseconds in `units / per_second` seconds, as far as 64 bits
/// hold them.
pub open spec fn spec_scaled_ns(units: nat, per_second: nat) -> nat {
    let ns = units * 1_000_000_000 / per_second;
    if ns > u64::MAX as nat {
        u64::MAX as nat
    } else {
        ns
    }
}

/// The length of a track as far as the container tells it. With a time base
/// `numer / denom` and a frame count it is their product, unless one of the
/// two numbers of the time base is zero. Without a time base, a positive
/// frame count at a positive sample rate gives it. Otherwise it is unknown.
pub open spec fn spec_best_effort_duration(
    time_base: Option<(u32, u32)>,
    n_frames: Option<u64>,
    sample_rate: Option<u32>,
) -> Option<u64> {
    match (time_base, n_frames, sample_rate) {
        (Some((numer, denom)), Some(frames), _) => if numer == 0 || denom == 0 {
            None
        } else {
            Some(spec_scaled_ns((frames as nat) * (numer as nat), denom as nat) as u64)
        },
        (None, Some(frames), Some(rate)) => if rate > 0 && frames > 0 {
            Some(spec_scaled_ns(frames as nat, rate as nat) as u64)
        } else {
            None
        },
        _ => None,
    }
}

fn scaled_ns(units: u128, per_second: u32) -> (ns: u64)
    requires
        per_second > 0,
        units <= 0xFFFF_FFFF_FFFF_FFFF * 0xFFFF_FFFF,
    ensures
        ns as nat == spec_scaled_ns(units as nat, per_second as nat),
{
    let ns: u128 = units * 1_000_000_000 / (per_second as u128);
    if ns > u64::MAX as u128 {
        u64::MAX
    } else {
        ns as u64
    }
}

/// Best-effort total duration in nanoseconds.
pub fn best_effort_duration(
    time_base: Option<(u32, u32)>,
    n_frames: Option<u64>,
    sample_rate: Option<u32>,
) -> (total_ns: Option<u64>)
    ensures
        total_ns == spec_best_effort_duration(time_base, n_frames, sample_rate),
{
    match (time_base, n_frames) {
        (Some((numer, denom)), Some(frames)) => {
            if numer == 0 || denom == 0 {
                return None;
            }
            assert((frames as int) * (numer as int) <= 0xFFFF_FFFF_FFFF_FFFF * 0xFFFF_FFFF)
                by (nonlinear_arith)
                requires
                    frames <= 0xFFFF_FFFF_FFFF_FFFFu64,
                    numer <= 0xFFFF_FFFFu32,
            ;
            let units: u128 = (frames as u128) * (numer as u128);
            return Some(scaled_ns(units, denom));
        },
        _ => {},
    }
    match (sample_rate, n_frames) {
        (Some(rate), Some(frames)) => {
            if rate > 0 && frames > 0 {
                Some(scaled_ns(frames as u128, rate))
            } else {
                None
            }
        },
        _ => None,
    }
}

/// What playing a file comes to once both decoders had their turn: the
/// primary one where it opened, else the fallback, else no playback.
pub fn choose_decoder(primary_opened: bool, fallback_opened: bool) -> (path: Result<
    DecoderPath,
    OpenError,
>)
    ensures
        path == if primary_opened {
            Ok::<DecoderPath, OpenError>(DecoderPath::Primary)
        } else if fallback_opened {
            Ok::<DecoderPath, OpenError>(DecoderPath::Fallback)
        } else {
            Err::<DecoderPath, OpenError>(OpenError::Unsupported)
        },
{
    if primary_opened {
        Ok(DecoderPath::Primary)
    } else if fallback_opened {
        Ok(DecoderPath::Fallback)
    } else {
        Err(OpenError::Unsupported)
    }
}

/// The count of bad frames in a row after one more.
pub open spec fn spec_bad_frame_count(errors: u32) -> u32 {
    if errors == u32::MAX {
        u32::MAX
    } else {
        (errors + 1) as u32
    }
}

/// What a bad frame leads to when `errors` bad frames came right before it:
/// the next packet, until the count passes the ceiling.
pub open spec fn spec_bad_frame_step(errors: u32) -> DecodeStep {
    if spec_bad_frame_count(errors) > MAX_CONSECUTIVE_ERRORS {
        DecodeStep::Ended(EndReason::TooManyErrors)
    } else {
        DecodeStep::ReadNext
    }
}

/// The count of bad frames in a row after `bad_frames` more of them.
pub open spec fn errors_after(start: u32, bad_frames: nat) -> u32
    decreases bad_frames,
{
    if bad_frames == 0 {
        start
    } else {
        spec_bad_frame_count(errors_after(start, (bad_frames - 1) as nat))
    }
}

/// What the reader's answer leads to for a session that plays `track_id`.
pub open spec fn spec_read_step(track_id: u32, outcome: ReadOutcome) -> DecodeStep {
    match outcome {
        ReadOutcome::Packet { track_id: id } => if id == track_id {
            DecodeStep::DecodePacket
        } else {
            DecodeStep::ReadNext
        },
        ReadOutcome::IoError => DecodeStep::Ended(EndReason::EndOfStream),
        ReadOutcome::ResetRequired => DecodeStep::ResetThenRead,
        ReadOutcome::Failed => DecodeStep::Ended(EndReason::Failed),
    }
}

/// How many queued samples a pull discards for the start offset.
pub open spec fn spec_discarded(queued: nat, skip: nat) -> nat {
    if skip <= queued {
        skip
    } else {
        queued
    }
}

/// All chunks one after the other.
pub open spec fn concat_chunks(chunks: Seq<Seq<u32>>) -> Seq<u32>
    decreases chunks.len(),
{
    if chunks.len() == 0 {
        Seq::empty()
    } else {
        chunks[0] + concat_chunks(chunks.drop_first())
    }
}

/// What a pull answers when the queue has run dry: more audio is asked for
/// while the stream goes on; a stream that has ended starts over where the
/// file loops, and is over where it does not.
pub open spec fn spec_dry_step(ended: bool, looping: bool) -> PullStep {
    if !ended {
        PullStep::NeedDecode
    } else if looping {
        PullStep::Reopen
    } else {
        PullStep::End
    }
}

/// What one pull comes to for a queue `fifo` with `skip` samples still to
/// discard: the step it answers, the queue it leaves and the budget it
/// leaves.
pub open spec fn spec_pull(fifo: Seq<u32>, skip: nat, ended: bool, looping: bool) -> (
    PullStep,
    Seq<u32>,
    nat,
) {
    let gone = spec_discarded(fifo.len(), skip);
    if gone < fifo.len() {
        (PullStep::Sample(fifo[gone as int]), fifo.skip(gone as int + 1), 0)
    } else {
        (spec_dry_step(ended, looping), Seq::empty(), (skip - gone) as nat)
    }
}

/// Every sample that pulling hands out, from a queue `fifo` with `skip`
/// samples still to discard, when each search for more audio queues the
/// next of `chunks` and the stream ends after the last.
pub open spec fn yielded(fifo: Seq<u32>, skip: nat, chunks: Seq<Seq<u32>>) -> Seq<u32>
    decreases chunks.len(), fifo.len(),
{
    let pulled = spec_pull(fifo, skip, false, false);
    if spec_discarded(fifo.len(), skip) < fifo.len() {
        seq![fifo[spec_discarded(fifo.len(), skip) as int]] + yielded(pulled.1, pulled.2, chunks)
    } else if chunks.len() > 0 {
        yielded(chunks[0], pulled.2, chunks.drop_first())
    } else {
        Seq::empty()
    }
}

/// Up to a thousand bad frames in a row each lead to the next packet, and
/// the count of them is exact; the frame after a thousand ends the stream.
pub proof fn lemma_bad_frame_tolerance(bad_frames: nat)
    requires
        bad_frames <= MAX_CONSECUTIVE_ERRORS,
    ensures
        errors_after(0, bad_frames) == bad_frames,
        bad_frames < MAX_CONSECUTIVE_ERRORS ==> spec_bad_frame_step(errors_after(0, bad_frames))
            == DecodeStep::ReadNext,
        bad_frames == MAX_CONSECUTIVE_ERRORS ==> spec_bad_frame_step(errors_after(0, bad_frames))
            == DecodeStep::Ended(EndReason::TooManyErrors),
    decreases bad_frames,
{
    if bad_frames > 0 {
        lemma_bad_frame_tolerance((bad_frames - 1) as nat);
    }
}

/// Pulling hands out exactly the decoded samples without the first `skip`
/// of them: the start offset discards its budget and nothing else, however
/// the audio is spread over the chunks.
pub proof fn lemma_skip_exact(fifo: Seq<u32>, skip: nat, chunks: Seq<Seq<u32>>)
    ensures
        yielded(fifo, skip, chunks) == (fifo + concat_chunks(chunks)).skip(
            spec_discarded((fifo + concat_chunks(chunks)).len(), skip) as int,
        ),
    decreases chunks.len(), fifo.len(),
{
    let all = fifo + concat_chunks(chunks);
    let gone = spec_discarded(fifo.len(), skip);
    if gone < fifo.len() {
        let rest = fifo.skip(gone as int + 1);
        lemma_skip_exact(rest, 0, chunks);
        assert((rest + concat_chunks(chunks)).skip(0) =~= rest + concat_chunks(chunks));
        assert(seq![fifo[gone as int]] + (rest + concat_chunks(chunks)) =~= all.skip(gone as int));
    } else if chunks.len() > 0 {
        lemma_skip_exact(chunks[0], (skip - gone) as nat, chunks.drop_first());
        let tail = chunks[0] + concat_chunks(chunks.drop_first());
        assert(concat_chunks(chunks) == tail);
        let tail_gone = spec_discarded(tail.len(), (skip - gone) as nat);
        assert(tail.skip(tail_gone as int) =~= all.skip((fifo.len() + tail_gone) as int));
    } else {
        assert(concat_chunks(chunks) =~= Seq::<u32>::empty());
        assert(all.skip(all.len() as int) =~= Seq::<u32>::empty());
    }
}

/// Once a stream that does not loop has ended, a dry queue answers every
/// pull with the end: no search for audio is asked for again.
pub proof fn lemma_ended_stream_is_over(skip: nat)
    ensures
        spec_pull(Seq::empty(), skip, true, false) == (
            PullStep::End,
            Seq::<u32>::empty(),
            skip,
        ),
{
}

/// One open file being decoded.
pub struct DecodeSession {
    /// Whether the file starts over when it ends.
    pub loop_enabled: bool,
    /// The track of the container that is played.
    pub track_id: u32,
    /// Sample rate of the audio handed out; zero until a frame tells it.
    pub sample_rate: u32,
    /// Channel count of the audio handed out; zero until a frame tells it.
    pub channels: u16,
    /// Best-effort length of the track, in nanoseconds.
    pub total_ns: Option<u64>,
    /// Decoded samples not yet handed out.
    pub fifo: VecDeque<u32>,
    /// Samples still to discard for the start offset.
    pub skip_samples: u64,
    /// Bad frames since the last good one.
    pub consecutive_decode_errors: u32,
    /// Packets that decoded since the file was opened.
    pub decoded_packets: u32,
    /// Why the stream has ended, once it has.
    pub ended: Option<EndReason>,
}

/// The reason that a step ends the stream with, if it does.
pub open spec fn end_of(step: DecodeStep) -> Option<EndReason> {
    match step {
        DecodeStep::Ended(reason) => Some(reason),
        _ => None,
    }
}

/// One more, as far as 32 bits hold it.
pub open spec fn one_more(count: u32) -> u32 {
    if count == u32::MAX {
        u32::MAX
    } else {
        (count + 1) as u32
    }
}

impl DecodeSession {
    /// Whether `other` has the format, track, length and loop mode of
    /// `self`.
    pub open spec fn same_stream(&self, other: &Self) -> bool {
        &&& self.loop_enabled == other.loop_enabled
        &&& self.track_id == other.track_id
        &&& self.sample_rate == other.sample_rate
        &&& self.channels == other.channels
        &&& self.total_ns == other.total_ns
    }

    /// A session on a freshly opened file that starts `start_ns` nanoseconds
    /// into the track. A format that the container does not name falls back
    /// to 48 kHz stereo.
    pub fn new(
        track_id: u32,
        sample_rate: Option<u32>,
        channels: Option<u16>,
        total_ns: Option<u64>,
        start_ns: u64,
        loop_enabled: bool,
    ) -> (session: Self)
        ensures
            session.loop_enabled == loop_enabled,
            session.track_id == track_id,
            session.sample_rate == match sample_rate {
                Some(rate) => rate,
                None => FALLBACK_SAMPLE_RATE,
            },
            session.channels == match channels {
                Some(count) => count,
                None => FALLBACK_CHANNELS,
            },
            session.total_ns == total_ns,
            session.fifo@.len() == 0,
            session.skip_samples as nat == spec_skip_budget(
                start_ns,
                session.sample_rate,
                session.channels,
            ),
            session.consecutive_decode_errors == 0,
            session.decoded_packets == 0,
            session.ended is None,
    {
        let rate = match sample_rate {
            Some(rate) => rate,
            None => FALLBACK_SAMPLE_RATE,
        };
        let count = match channels {
            Some(count) => count,
            None => FALLBACK_CHANNELS,
        };
        DecodeSession {
            loop_enabled,
            track_id,
            sample_rate: rate,
            channels: count,
            total_ns,
            fifo: VecDeque::new(),
            skip_samples: skip_budget(start_ns, rate, count),
            consecutive_decode_errors: 0,
            decoded_packets: 0,
            ended: None,
        }
    }

    /// What priming does next. It is done as soon as a sample is queued. It
    /// gives the file up when the stream has ended without one, be it at its
    /// end or on too many bad frames in a row, and when 250 packets have
    /// decoded without one.
    pub fn prime_step(&self) -> (step: PrimeStep)
        ensures
            step == if self.fifo@.len() > 0 {
                PrimeStep::Ready
            } else if self.ended is Some {
                PrimeStep::Fail(OpenError::NoDecodableAudio)
            } else if self.decoded_packets < PRIME_PACKETS {
                PrimeStep::Attempt
            } else {
                PrimeStep::Fail(OpenError::NoDecodableAudio)
            },
    {
        if self.fifo.len() > 0 {
            PrimeStep::Ready
        } else if self.ended.is_some() {
            PrimeStep::Fail(OpenError::NoDecodableAudio)
        } else if self.decoded_packets < PRIME_PACKETS {
            PrimeStep::Attempt
        } else {
            PrimeStep::Fail(OpenError::NoDecodableAudio)
        }
    }

    /// What to do with the reader's answer: decode a packet of the played
    /// track, pass over one of another track, reset on request, and take an
    /// I/O error for the end of the stream. An answer that ends the stream
    /// is kept; a stream that has ended stays ended whatever is answered.
    pub fn on_read(&mut self, outcome: ReadOutcome) -> (step: DecodeStep)
        ensures
            final(self).same_stream(old(self)),
            final(self).fifo == old(self).fifo,
            final(self).skip_samples == old(self).skip_samples,
            final(self).consecutive_decode_errors == old(self).consecutive_decode_errors,
            final(self).decoded_packets == old(self).decoded_packets,
            match old(self).ended {
                Some(reason) => {
                    &&& step == DecodeStep::Ended(reason)
                    &&& final(self).ended == old(self).ended
                },
                None => {
                    &&& step == spec_read_step(old(self).track_id, outcome)
                    &&& final(self).ended == end_of(step)
                },
            },
    {
        match self.ended {
            Some(reason) => {
                return DecodeStep::Ended(reason);
            },
            None => {},
        }
        match outcome {
            ReadOutcome::Packet { track_id } => {
                if track_id == self.track_id {
                    DecodeStep::DecodePacket
                } else {
                    DecodeStep::ReadNext
                }
            },
            ReadOutcome::IoError => {
                self.ended = Some(EndReason::EndOfStream);
                DecodeStep::Ended(EndReason::EndOfStream)
            },
            ReadOutcome::ResetRequired => DecodeStep::ResetThenRead,
            ReadOutcome::Failed => {
                self.ended = Some(EndReason::Failed);
                DecodeStep::Ended(EndReason::Failed)
            },
        }
    }

    /// What to do with the codec's answer. Audio is queued behind what is
    /// already there and clears the count of bad frames; a format that was
    /// still open is taken from it, and one that was set stays. A bad frame
    /// is counted and passed over until the count exceeds the ceiling, which
    /// ends the stream. A stream that has ended stays ended and takes
    /// nothing in.
    pub fn on_decode(&mut self, outcome: DecodeOutcome) -> (step: DecodeStep)
        ensures
            final(self).loop_enabled == old(self).loop_enabled,
            final(self).track_id == old(self).track_id,
            final(self).total_ns == old(self).total_ns,
            final(self).skip_samples == old(self).skip_samples,
            old(self).ended is Some ==> {
                &&& step == DecodeStep::Ended(old(self).ended->0)
                &&& *final(self) == *old(self)
            },
            old(self).ended is None ==> final(self).ended == end_of(step),
            old(self).ended is None ==> match outcome {
                DecodeOutcome::Audio { sample_rate, channels, samples } => {
                    &&& step == DecodeStep::Filled
                    &&& final(self).fifo@ == old(self).fifo@ + samples@
                    &&& final(self).consecutive_decode_errors == 0
                    &&& final(self).decoded_packets == one_more(old(self).decoded_packets)
                    &&& final(self).sample_rate == if old(self).sample_rate == 0 {
                        sample_rate
                    } else {
                        old(self).sample_rate
                    }
                    &&& final(self).channels == if old(self).channels == 0 {
                        channels
                    } else {
                        old(self).channels
                    }
                },
                DecodeOutcome::BadFrame => {
                    &&& step == spec_bad_frame_step(old(self).consecutive_decode_errors)
                    &&& final(self).consecutive_decode_errors == spec_bad_frame_count(
                        old(self).consecutive_decode_errors,
                    )
                    &&& final(self).fifo@ == old(self).fifo@
                    &&& final(self).decoded_packets == old(self).decoded_packets
                    &&& final(self).sample_rate == old(self).sample_rate
                    &&& final(self).channels == old(self).channels
                },
                DecodeOutcome::ResetRequired => {
                    &&& step == DecodeStep::ResetThenRead
                    &&& *final(self) == *old(self)
                },
                DecodeOutcome::Failed => {
                    &&& step == DecodeStep::Ended(EndReason::Failed)
                    &&& final(self).fifo@ == old(self).fifo@
                    &&& final(self).consecutive_decode_errors == old(self).consecutive_decode_errors
                    &&& final(self).decoded_packets == old(self).decoded_packets
                    &&& final(self).sample_rate == old(self).sample_rate
                    &&& final(self).channels == old(self).channels
                },
            },
    {
        match self.ended {
            Some(reason) => {
                return DecodeStep::Ended(reason);
            },
            None => {},
        }
        match outcome {
            DecodeOutcome::Audio { sample_rate, channels, samples } => {
                self.consecutive_decode_errors = 0;
                self.decoded_packets = self.decoded_packets.saturating_add(1);
                if self.sample_rate == 0 {
                    self.sample_rate = sample_rate;
                }
                if self.channels == 0 {
                    self.channels = channels;
                }
                let ghost before = self.fifo@;
                let mut i: usize = 0;
                while i < samples.len()
                    invariant
                        i <= samples@.len(),
                        self.fifo@ == before + samples@.take(i as int),
                        self.loop_enabled == old(self).loop_enabled,
                        self.track_id == old(self).track_id,
                        self.total_ns == old(self).total_ns,
                        self.skip_samples == old(self).skip_samples,
                        self.consecutive_decode_errors == 0,
                        self.decoded_packets == one_more(old(self).decoded_packets),
                        self.ended is None,
                        self.sample_rate == if old(self).sample_rate == 0 {
                            sample_rate
                        } else {
                            old(self).sample_rate
                        },
                        self.channels == if old(self).channels == 0 {
                            channels
                        } else {
                            old(self).channels
                        },
                    decreases samples@.len() - i,
                {
                    self.fifo.push_back(samples[i]);
                    i += 1;
                    assert(self.fifo@ =~= before + samples@.take(i as int));
                }
                assert(samples@.take(i as int) =~= samples@);
                DecodeStep::Filled
            },
            DecodeOutcome::BadFrame => {
                self.consecutive_decode_errors = self.consecutive_decode_errors.saturating_add(1);
                if self.consecutive_decode_errors > MAX_CONSECUTIVE_ERRORS {
                    self.ended = Some(EndReason::TooManyErrors);
                    DecodeStep::Ended(EndReason::TooManyErrors)
                } else {
                    DecodeStep::ReadNext
                }
            },
            DecodeOutcome::ResetRequired => DecodeStep::ResetThenRead,
            DecodeOutcome::Failed => {
                self.ended = Some(EndReason::Failed);
                DecodeStep::Ended(EndReason::Failed)
            },
        }
    }

    /// Hands out the next sample. What is left of the skip budget is taken
    /// off the front of the queue first; the sample behind it is handed out.
    /// When the queue runs dry before that, more audio has to be decoded
    /// while the stream goes on. Once the stream has ended, the file is to
    /// be opened again where it loops, and there is no further sample where
    /// it does not.
    pub fn pull(&mut self) -> (step: PullStep)
        ensures
            final(self).same_stream(old(self)),
            final(self).consecutive_decode_errors == old(self).consecutive_decode_errors,
            final(self).decoded_packets == old(self).decoded_packets,
            final(self).ended == old(self).ended,
            (step, final(self).fifo@, final(self).skip_samples as nat) == spec_pull(
                old(self).fifo@,
                old(self).skip_samples as nat,
                old(self).ended is Some,
                old(self).loop_enabled,
            ),
    {
        let ghost before = self.fifo@;
        let ghost skip0 = self.skip_samples;
        assert(self.fifo@ =~= before.skip(0));
        while self.skip_samples > 0 && self.fifo.len() > 0
            invariant
                self.same_stream(old(self)),
                self.consecutive_decode_errors == old(self).consecutive_decode_errors,
                self.decoded_packets == old(self).decoded_packets,
                self.ended == old(self).ended,
                before == old(self).fifo@,
                skip0 == old(self).skip_samples,
                self.skip_samples <= skip0,
                skip0 - self.skip_samples <= before.len(),
                self.fifo@ == before.skip(skip0 - self.skip_samples),
            decreases self.skip_samples,
        {
            let dropped = self.fifo.pop_front();
            self.skip_samples = self.skip_samples - 1;
            assert(self.fifo@ =~= before.skip(skip0 - self.skip_samples));
        }
        if self.skip_samples == 0 {
            match self.fifo.pop_front() {
                Some(sample) => {
                    assert(self.fifo@ =~= before.skip(skip0 + 1));
                    return PullStep::Sample(sample);
                },
                None => {},
            }
        }
        assert(self.fifo@ =~= Seq::<u32>::empty());
        if self.ended.is_none() {
            PullStep::NeedDecode
        } else if self.loop_enabled {
            PullStep::Reopen
        } else {
            PullStep::End
        }
    }

    /// Takes note that the file was opened again for another round: the
    /// stream goes on, and the queue, the skip budget and the counts start
    /// afresh.
    pub fn reopened(&mut self, track_id: u32)
        ensures
            final(self).track_id == track_id,
            final(self).fifo@.len() == 0,
            final(self).skip_samples == 0,
            final(self).consecutive_decode_errors == 0,
            final(self).decoded_packets == 0,
            final(self).ended is None,
            final(self).loop_enabled == old(self).loop_enabled,
            final(self).sample_rate == old(self).sample_rate,
            final(self).channels == old(self).channels,
            final(self).total_ns == old(self).total_ns,
    {
        self.track_id = track_id;
        self.fifo.clear();
        self.skip_samples = 0;
        self.consecutive_decode_errors = 0;
        self.decoded_packets = 0;
        self.ended = None;
    }

    /// Takes note that the file could not be opened again: it does not
    /// start over any more, so a stream that has ended is over.
    pub fn reopen_failed(&mut self)
        ensures
            !final(self).loop_enabled,
            final(self).track_id == old(self).track_id,
            final(self).sample_rate == old(self).sample_rate,
            final(self).channels == old(self).channels,
            final(self).total_ns == old(self).total_ns,
            final(self).fifo == old(self).fifo,
            final(self).skip_samples == old(self).skip_samples,
            final(self).consecutive_decode_errors == old(self).consecutive_decode_errors,
            final(self).decoded_packets == old(self).decoded_packets,
            final(self).ended == old(self).ended,
    {
        self.loop_enabled = false;
    }

    /// Channel count reported downstream: never zero.
    pub fn channels(&self) -> (count: u16)
        ensures
            count == if self.channels == 0 {
                1
            } else {
                self.channels
            },
    {
        if self.channels == 0 {
            1
        } else {
            self.channels
        }
    }

    /// Sample rate reported downstream: never zero.
    pub fn sample_rate(&self) -> (rate: u32)
        ensures
            rate == if self.sample_rate == 0 {
                1
            } else {
                self.sample_rate
            },
    {
        if self.sample_rate == 0 {
            1
        } else {
            self.sample_rate
        }
    }

    /// Best-effort length of the track, in nanoseconds.
    pub fn total_duration(&self) -> (total_ns: Option<u64>)
        ensures
            total_ns == self.total_ns,
    {
        self.total_ns
    }
}

} // verus!
