//! The output engine: the state shared between the controller, the fill
//! worker and the realtime callback, as one deterministic model.
//!
//! Samples are carried as the bit patterns of 32-bit floating-point values.
//! Gain and format scaling are applied by the caller on what a block hands
//! out; nothing here does floating-point arithmetic.
use std::collections::VecDeque;
use vstd::prelude::*;

verus! {

/// Most samples the fill worker pulls from a source in one step.
pub const CHUNK_SAMPLES: usize = 8192;

/// Smallest ring-buffer capacity, in samples.
pub const MIN_BUFFER_SAMPLES: usize = 16384;

/// Largest ring-buffer capacity, in samples.
pub const MAX_BUFFER_SAMPLES: usize = 512000;

/// Bit pattern of the gain `1.0`.
pub const UNITY_GAIN_BITS: u32 = 0x3F80_0000;

/// Bit patterns below this one are the finite, non-negative values.
pub const GAIN_BITS_LIMIT: u32 = 0x7F80_0000;

/// Bit pattern of a silent sample.
pub const SILENCE: u32 = 0;

/// How long the fill worker rests when it has nothing to decode.
pub const IDLE_SLEEP_MS: u64 = 10;

/// How long the fill worker rests between two steps while it decodes, and
/// when the buffer is full.
pub const FULL_SLEEP_MS: u64 = 5;

/// Three quarters of a second of interleaved samples, rounded to the nearest
/// sample and kept within the two capacity bounds.
pub open spec fn spec_buffer_capacity(sample_rate: u32, channels: u16) -> int {
    let raw = (3 * (sample_rate as int) * (channels as int) + 2) / 4;
    if raw < MIN_BUFFER_SAMPLES as int {
        MIN_BUFFER_SAMPLES as int
    } else if raw > MAX_BUFFER_SAMPLES as int {
        MAX_BUFFER_SAMPLES as int
    } else {
        raw
    }
}

/// The ring-buffer capacity for an output format.
pub fn buffer_capacity_samples(sample_rate: u32, channels: u16) -> (capacity: usize)
    ensures
        capacity as int == spec_buffer_capacity(sample_rate, channels),
        MIN_BUFFER_SAMPLES <= capacity <= MAX_BUFFER_SAMPLES,
{
    assert(3 * (sample_rate as int) * (channels as int) <= 3 * 0xFFFF_FFFF * 0xFFFF)
        by (nonlinear_arith)
        requires
            sample_rate <= 0xFFFF_FFFFu32,
            channels <= 0xFFFFu16,
    ;
    let product: u64 = 3 * (sample_rate as u64) * (channels as u64);
    let raw: u64 = (product + 2) / 4;
    if raw < MIN_BUFFER_SAMPLES as u64 {
        MIN_BUFFER_SAMPLES
    } else if raw > MAX_BUFFER_SAMPLES as u64 {
        MAX_BUFFER_SAMPLES
    } else {
        raw as usize
    }
}

/// A hardware buffer size to ask the driver for.
#[derive(Clone, Copy, Debug, PartialEq, Eq, Structural)]
pub enum BufferRequest {
    /// A fixed number of frames.
    Fixed(u32),
    /// Whatever the platform picks.
    PlatformDefault,
}

/// The request to make after `rejected` earlier ones were turned down:
/// three explicit sizes, smallest first, then the platform's default, then
/// nothing more.
pub open spec fn spec_buffer_request(rejected: nat) -> Option<BufferRequest> {
    if rejected == 0 {
        Some(BufferRequest::Fixed(1024))
    } else if rejected == 1 {
        Some(BufferRequest::Fixed(2048))
    } else if rejected == 2 {
        Some(BufferRequest::Fixed(4096))
    } else if rejected == 3 {
        Some(BufferRequest::PlatformDefault)
    } else {
        None
    }
}

/// Next step of the buffer-size negotiation.
pub fn buffer_request(rejected: usize) -> (request: Option<BufferRequest>)
    ensures
        request == spec_buffer_request(rejected as nat),
{
    if rejected == 0 {
        Some(BufferRequest::Fixed(1024))
    } else if rejected == 1 {
        Some(BufferRequest::Fixed(2048))
    } else if rejected == 2 {
        Some(BufferRequest::Fixed(4096))
    } else if rejected == 3 {
        Some(BufferRequest::PlatformDefault)
    } else {
        None
    }
}

/// Which rejection is reported when every request failed: the one of the
/// last explicit size, not that of the platform's default.
pub fn reported_rejection() -> (index: usize)
    ensures
        index == 2,
        spec_buffer_request(index as nat) == Some(BufferRequest::Fixed(4096)),
{
    2
}

/// The gain that is stored for a requested bit pattern: the pattern itself
/// when it is a finite, non-negative value, and zero otherwise.
pub open spec fn spec_sanitize_gain(bits: u32) -> u32 {
    if bits < GAIN_BITS_LIMIT {
        bits
    } else {
        0
    }
}

/// The gain that is stored for a requested bit pattern.
pub fn sanitize_gain_bits(bits: u32) -> (clean: u32)
    ensures
        clean == spec_sanitize_gain(bits),
        clean < GAIN_BITS_LIMIT,
{
    if bits < GAIN_BITS_LIMIT {
        bits
    } else {
        0
    }
}

/// Whether the realtime callback must emit silence without touching the
/// buffer.
pub open spec fn spec_callback_silent(killed: bool, paused: bool, state_free: bool) -> bool {
    killed || paused || !state_free
}

/// Whether the callback may skip even the attempt to lock the shared state.
pub fn callback_skips_lock(killed: bool, paused: bool) -> (skip: bool)
    ensures
        skip == (killed || paused),
        skip ==> spec_callback_silent(killed, paused, true),
{
    killed || paused
}

/// The part of the output state that lives behind the lock.
pub struct State<S> {
    /// The next source to play, until the fill worker takes it.
    pub pending_source: Option<S>,
    /// Interleaved samples ready for the callback.
    pub buffer: VecDeque<u32>,
    /// Counts source swaps.
    pub generation: u64,
    /// How many samples the buffer may hold.
    pub capacity: usize,
    /// For each buffered sample, the generation it was decoded for.
    pub tags: Ghost<Seq<u64>>,
}

impl<S> State<S> {
    /// The buffer keeps within its capacity and holds only audio of the
    /// current generation.
    pub open spec fn wf(&self) -> bool {
        &&& self.buffer@.len() <= self.capacity
        &&& self.tags@.len() == self.buffer@.len()
        &&& forall|i: int| 0 <= i < self.tags@.len() ==> self.tags@[i] == self.generation
    }

    fn clear_buffer(&mut self)
        ensures
            final(self).buffer@.len() == 0,
            final(self).tags@.len() == 0,
            final(self).pending_source == old(self).pending_source,
            final(self).generation == old(self).generation,
            final(self).capacity == old(self).capacity,
    {
        self.buffer.clear();
        self.tags = Ghost(Seq::empty());
    }
}

/// The control surface of the output engine together with the state it
/// controls.
pub struct AudioControl<S> {
    pub state: State<S>,
    pub paused: bool,
    pub gain_bits: u32,
    pub finished: bool,
    pub killed: bool,
}

/// The fill worker's own state.
pub struct FillWorker<S> {
    /// The source being decoded.
    pub active: Option<S>,
    /// The generation the worker last saw.
    pub active_gen: u64,
}

/// What the fill worker does next.
#[derive(Clone, Copy, Debug, PartialEq, Eq, Structural)]
pub enum FillAction {
    /// Rest for this many milliseconds, then begin again.
    Sleep(u64),
    /// Pull up to `count` samples from the active source and commit them
    /// under `generation`.
    Pull { count: usize, generation: u64 },
}

/// The generation after a source swap: one more, starting over behind the
/// largest.
pub open spec fn next_generation(generation: u64) -> u64 {
    if generation == u64::MAX {
        0
    } else {
        (generation + 1) as u64
    }
}

impl<S> AudioControl<S> {
    /// The shared state is in order and the gain is finite and not negative.
    pub open spec fn wf(&self) -> bool {
        &&& self.state.wf()
        &&& self.gain_bits < GAIN_BITS_LIMIT
    }

    /// Whether the two agree on everything but the buffer and its tags.
    pub open spec fn same_controls(&self, other: &Self) -> bool {
        &&& self.paused == other.paused
        &&& self.gain_bits == other.gain_bits
        &&& self.finished == other.finished
        &&& self.killed == other.killed
        &&& self.state.pending_source == other.state.pending_source
        &&& self.state.generation == other.state.generation
        &&& self.state.capacity == other.state.capacity
    }

    /// An idle engine at unity gain with an empty buffer of `capacity`
    /// samples.
    pub fn new(capacity: usize) -> (ctl: Self)
        ensures
            ctl.wf(),
            ctl.state.pending_source is None,
            ctl.state.buffer@.len() == 0,
            ctl.state.generation == 0,
            ctl.state.capacity == capacity,
            !ctl.paused,
            !ctl.finished,
            !ctl.killed,
            ctl.gain_bits == UNITY_GAIN_BITS,
    {
        AudioControl {
            state: State {
                pending_source: None,
                buffer: VecDeque::new(),
                generation: 0,
                capacity,
                tags: Ghost(Seq::empty()),
            },
            paused: false,
            gain_bits: UNITY_GAIN_BITS,
            finished: false,
            killed: false,
        }
    }

    /// Pauses or resumes the output; the buffer stays as it is.
    pub fn set_paused(&mut self, paused: bool)
        ensures
            final(self).paused == paused,
            final(self).state == old(self).state,
            final(self).gain_bits == old(self).gain_bits,
            final(self).finished == old(self).finished,
            final(self).killed == old(self).killed,
    {
        self.paused = paused;
    }

    /// Stores the gain, replacing a negative or non-finite value by zero.
    pub fn set_gain(&mut self, gain_bits: u32)
        ensures
            final(self).gain_bits == spec_sanitize_gain(gain_bits),
            final(self).gain_bits < GAIN_BITS_LIMIT,
            final(self).state == old(self).state,
            final(self).paused == old(self).paused,
            final(self).finished == old(self).finished,
            final(self).killed == old(self).killed,
    {
        self.gain_bits = sanitize_gain_bits(gain_bits);
    }

    /// Hands over a new source. Everything buffered for the previous one is
    /// dropped and the generation moves on.
    pub fn set_source(&mut self, source: S)
        requires
            old(self).wf(),
        ensures
            final(self).wf(),
            final(self).state.pending_source == Some(source),
            final(self).state.buffer@.len() == 0,
            final(self).state.generation == next_generation(old(self).state.generation),
            final(self).state.capacity == old(self).state.capacity,
            !final(self).finished,
            !final(self).killed,
            final(self).paused == old(self).paused,
            final(self).gain_bits == old(self).gain_bits,
    {
        self.finished = false;
        self.killed = false;
        self.state.pending_source = Some(source);
        self.state.clear_buffer();
        self.state.generation = self.state.generation.wrapping_add(1);
    }

    /// Silences the engine at once: gain zero and the killed flag set. When
    /// the shared state is free, the pending source and the buffer are
    /// dropped too and the generation moves on; when it is held elsewhere,
    /// they are left for the fill worker to drop.
    pub fn stop_now(&mut self, state_free: bool)
        requires
            old(self).wf(),
        ensures
            final(self).wf(),
            final(self).killed,
            final(self).gain_bits == 0,
            final(self).paused == old(self).paused,
            final(self).finished == old(self).finished,
            final(self).state.capacity == old(self).state.capacity,
            state_free ==> {
                &&& final(self).state.pending_source is None
                &&& final(self).state.buffer@.len() == 0
                &&& final(self).state.generation == next_generation(
                    old(self).state.generation,
                )
            },
            !state_free ==> final(self).state == old(self).state,
    {
        self.set_gain(0);
        self.killed = true;
        if state_free {
            self.state.pending_source = None;
            self.state.clear_buffer();
            self.state.generation = self.state.generation.wrapping_add(1);
        }
    }

    /// The same as [`AudioControl::stop_now`]: the stream handle itself
    /// stays with its owner.
    pub fn shutdown_now(&mut self, state_free: bool)
        requires
            old(self).wf(),
        ensures
            final(self).wf(),
            final(self).killed,
            final(self).gain_bits == 0,
            final(self).paused == old(self).paused,
            final(self).finished == old(self).finished,
            final(self).state.capacity == old(self).state.capacity,
            state_free ==> {
                &&& final(self).state.pending_source is None
                &&& final(self).state.buffer@.len() == 0
                &&& final(self).state.generation == next_generation(
                    old(self).state.generation,
                )
            },
            !state_free ==> final(self).state == old(self).state,
    {
        self.stop_now(state_free);
    }

    /// Reads the finished flag and clears it.
    pub fn take_finished(&mut self) -> (was_finished: bool)
        ensures
            was_finished == old(self).finished,
            !final(self).finished,
            final(self).state == old(self).state,
            final(self).paused == old(self).paused,
            final(self).gain_bits == old(self).gain_bits,
            final(self).killed == old(self).killed,
    {
        let was = self.finished;
        self.finished = false;
        was
    }

    /// How many buffered samples a block of `block` samples plays.
    pub open spec fn drained_count(&self, state_free: bool, block: nat) -> nat {
        if spec_callback_silent(self.killed, self.paused, state_free) {
            0
        } else if block <= self.state.buffer@.len() {
            block
        } else {
            self.state.buffer@.len()
        }
    }

    /// What a block of `block` samples holds after the callback: the
    /// buffered samples it plays, then silence.
    pub open spec fn block_output(&self, state_free: bool, block: nat) -> Seq<u32> {
        let played = self.drained_count(state_free, block);
        Seq::new(
            block,
            |i: int|
                if i < played {
                    self.state.buffer@[i]
                } else {
                    SILENCE
                },
        )
    }

    /// The realtime callback on one output block. `state_free` says whether
    /// the shared state could be had without waiting. The block is silent
    /// when the engine is killed or paused or the state is held elsewhere;
    /// otherwise it takes samples from the front of the buffer, and silence
    /// for what the buffer lacks. Every sample it plays was decoded for the
    /// current generation.
    pub fn write_block(&mut self, out: &mut Vec<u32>, state_free: bool)
        requires
            old(self).wf(),
        ensures
            final(self).wf(),
            final(self).same_controls(old(self)),
            final(out)@ == old(self).block_output(state_free, old(out)@.len()),
            final(self).state.buffer@ == old(self).state.buffer@.skip(
                old(self).drained_count(state_free, old(out)@.len()) as int,
            ),
            final(self).state.tags@ == old(self).state.tags@.skip(
                old(self).drained_count(state_free, old(out)@.len()) as int,
            ),
            forall|i: int|
                0 <= i < old(self).drained_count(state_free, old(out)@.len())
                    ==> old(self).state.tags@[i] == final(self).state.generation,
    {
        let n = out.len();
        let ghost pre = *self;
        let ghost played = pre.drained_count(state_free, n as nat);
        let mut i: usize = 0;
        if self.killed || self.paused || !state_free {
            while i < n
                invariant
                    i <= n,
                    out@.len() == n,
                    forall|k: int| 0 <= k < i ==> out@[k] == SILENCE,
                decreases n - i,
            {
                out.set(i, SILENCE);
                i += 1;
            }
            assert(out@ =~= pre.block_output(state_free, n as nat));
            assert(self.state.buffer@ =~= pre.state.buffer@.skip(0));
            assert(self.state.tags@ =~= pre.state.tags@.skip(0));
            return;
        }
        assert(self.state.buffer@ =~= pre.state.buffer@.skip(0));
        assert(self.state.tags@ =~= pre.state.tags@.skip(0));
        while i < n
            invariant
                i <= n,
                out@.len() == n,
                self.same_controls(&pre),
                pre.wf(),
                played == if n <= pre.state.buffer@.len() {
                    n as nat
                } else {
                    pre.state.buffer@.len()
                },
                self.state.buffer@ == pre.state.buffer@.skip(
                    if i <= played {
                        i as int
                    } else {
                        played as int
                    },
                ),
                self.state.tags@ == pre.state.tags@.skip(
                    if i <= played {
                        i as int
                    } else {
                        played as int
                    },
                ),
                forall|k: int|
                    0 <= k < i ==> out@[k] == if k < played {
                        pre.state.buffer@[k]
                    } else {
                        SILENCE
                    },
            decreases n - i,
        {
            let ghost before = self.state.buffer@;
            match self.state.buffer.pop_front() {
                Some(v) => {
                    out.set(i, v);
                    self.state.tags = Ghost(self.state.tags@.skip(1));
                    assert(self.state.buffer@ =~= pre.state.buffer@.skip(i + 1));
                    assert(self.state.tags@ =~= pre.state.tags@.skip(i + 1));
                },
                None => {
                    out.set(i, SILENCE);
                },
            }
            i += 1;
        }
        assert(out@ =~= pre.block_output(state_free, n as nat));
    }
}

impl<S> FillWorker<S> {
    /// A worker with no source that has seen generation zero.
    pub fn new() -> (worker: Self)
        ensures
            worker.active is None,
            worker.active_gen == 0,
    {
        FillWorker { active: None, active_gen: 0 }
    }

    /// What the first half of a fill step decides, given the worker's source
    /// after any adoption and the room left in the buffer.
    pub open spec fn planned_action(
        paused: bool,
        has_source: bool,
        room: nat,
        generation: u64,
    ) -> FillAction {
        if paused || !has_source {
            FillAction::Sleep(IDLE_SLEEP_MS)
        } else if room == 0 {
            FillAction::Sleep(FULL_SLEEP_MS)
        } else if room < CHUNK_SAMPLES {
            FillAction::Pull { count: room as usize, generation }
        } else {
            FillAction::Pull { count: CHUNK_SAMPLES, generation }
        }
    }

    /// First half of a fill step.
    ///
    /// A killed engine drops the worker's source, the pending source and the
    /// buffer. Otherwise, when the generation has moved on, the worker lets
    /// go of its source, which belongs to an earlier generation, and adopts
    /// the pending one where there is one; the buffer is emptied, since what
    /// it held was decoded for an earlier generation. The action then says
    /// whether to rest or how much to pull.
    pub fn begin(&mut self, ctl: &mut AudioControl<S>) -> (action: FillAction)
        requires
            old(ctl).wf(),
        ensures
            final(ctl).wf(),
            final(ctl).paused == old(ctl).paused,
            final(ctl).gain_bits == old(ctl).gain_bits,
            final(ctl).finished == old(ctl).finished,
            final(ctl).killed == old(ctl).killed,
            final(ctl).state.generation == old(ctl).state.generation,
            final(ctl).state.capacity == old(ctl).state.capacity,
            old(ctl).killed ==> {
                &&& final(self).active is None
                &&& final(self).active_gen == old(self).active_gen
                &&& final(ctl).state.pending_source is None
                &&& final(ctl).state.buffer@.len() == 0
                &&& action == FillAction::Sleep(IDLE_SLEEP_MS)
            },
            !old(ctl).killed ==> final(self).active_gen == old(ctl).state.generation,
            !old(ctl).killed && old(ctl).state.generation != old(self).active_gen ==> {
                &&& final(ctl).state.pending_source is None
                &&& final(ctl).state.buffer@.len() == 0
                &&& final(self).active == old(ctl).state.pending_source
            },
            !old(ctl).killed && old(ctl).state.generation == old(self).active_gen ==> {
                &&& final(ctl).state == old(ctl).state
                &&& final(self).active == old(self).active
            },
            !old(ctl).killed ==> action == Self::planned_action(
                old(ctl).paused,
                final(self).active is Some,
                (final(ctl).state.capacity - final(ctl).state.buffer@.len()) as nat,
                old(ctl).state.generation,
            ),
    {
        if ctl.killed {
            self.active = None;
            ctl.state.pending_source = None;
            ctl.state.clear_buffer();
            return FillAction::Sleep(IDLE_SLEEP_MS);
        }
        let generation = ctl.state.generation;
        if generation != self.active_gen {
            self.active_gen = generation;
            self.active = ctl.state.pending_source.take();
            ctl.state.clear_buffer();
        }
        let room: usize = ctl.state.capacity - ctl.state.buffer.len();
        if ctl.paused || self.active.is_none() {
            FillAction::Sleep(IDLE_SLEEP_MS)
        } else if room == 0 {
            FillAction::Sleep(FULL_SLEEP_MS)
        } else if room < CHUNK_SAMPLES {
            FillAction::Pull { count: room, generation }
        } else {
            FillAction::Pull { count: CHUNK_SAMPLES, generation }
        }
    }

    /// How many samples of a pulled chunk enter the buffer: none under a
    /// generation that is no longer current, else as many as there is room
    /// for.
    pub open spec fn accepted_count(ctl: &AudioControl<S>, generation: u64, chunk: nat) -> nat {
        let room = (ctl.state.capacity - ctl.state.buffer@.len()) as nat;
        if ctl.state.generation != generation {
            0
        } else if chunk <= room {
            chunk
        } else {
            room
        }
    }

    /// Second half of a fill step: `chunk` is what was pulled for
    /// `generation`, and `exhausted` says that the source ended during the
    /// pull. An exhausted source is dropped; the finished flag is raised for
    /// it only where it is the source of the current generation still, so
    /// that a source that was replaced meanwhile reports nothing.
    /// The chunk enters the buffer only under the current generation, and
    /// only as far as there is room. Returns how long to rest before the
    /// next step.
    pub fn commit(
        &mut self,
        ctl: &mut AudioControl<S>,
        generation: u64,
        chunk: &Vec<u32>,
        exhausted: bool,
    ) -> (rest_ms: u64)
        requires
            old(ctl).wf(),
        ensures
            final(ctl).wf(),
            final(self).active_gen == old(self).active_gen,
            final(self).active == if exhausted {
                None
            } else {
                old(self).active
            },
            final(ctl).finished == (old(ctl).finished || (exhausted && old(ctl).state.generation
                == generation)),
            final(ctl).paused == old(ctl).paused,
            final(ctl).gain_bits == old(ctl).gain_bits,
            final(ctl).killed == old(ctl).killed,
            final(ctl).state.pending_source == old(ctl).state.pending_source,
            final(ctl).state.generation == old(ctl).state.generation,
            final(ctl).state.capacity == old(ctl).state.capacity,
            final(ctl).state.buffer@ == old(ctl).state.buffer@ + chunk@.take(
                Self::accepted_count(old(ctl), generation, chunk@.len()) as int,
            ),
            final(ctl).state.tags@ == old(ctl).state.tags@ + Seq::new(
                Self::accepted_count(old(ctl), generation, chunk@.len()),
                |i: int| generation,
            ),
            rest_ms == FULL_SLEEP_MS,
    {
        let ghost pre = *ctl;
        let ghost accepted = Self::accepted_count(&pre, generation, chunk@.len());
        if exhausted {
            self.active = None;
            if ctl.state.generation == generation {
                ctl.finished = true;
            }
        }
        if chunk.len() == 0 {
            assert(ctl.state.buffer@ =~= pre.state.buffer@ + chunk@.take(0));
            assert(ctl.state.tags@ =~= pre.state.tags@ + Seq::new(0, |i: int| generation));
            return FULL_SLEEP_MS;
        }
        if ctl.state.generation == generation {
            let room: usize = ctl.state.capacity - ctl.state.buffer.len();
            let take: usize = if chunk.len() <= room {
                chunk.len()
            } else {
                room
            };
            let mut i: usize = 0;
            while i < take
                invariant
                    i <= take,
                    take == accepted,
                    take <= chunk@.len(),
                    pre.state.buffer@.len() + take <= pre.state.capacity,
                    ctl.paused == pre.paused,
                    ctl.gain_bits == pre.gain_bits,
                    ctl.killed == pre.killed,
                    ctl.state.pending_source == pre.state.pending_source,
                    ctl.state.capacity == pre.state.capacity,
                    ctl.state.generation == pre.state.generation,
                    ctl.finished == (pre.finished || (exhausted && pre.state.generation
                        == generation)),
                    ctl.state.generation == generation,
                    pre.wf(),
                    ctl.state.buffer@ == pre.state.buffer@ + chunk@.take(i as int),
                    ctl.state.tags@ == pre.state.tags@ + Seq::new(i as nat, |k: int| generation),
                decreases take - i,
            {
                ctl.state.buffer.push_back(chunk[i]);
                ctl.state.tags = Ghost(ctl.state.tags@.push(generation));
                i += 1;
                assert(ctl.state.buffer@ =~= pre.state.buffer@ + chunk@.take(i as int));
                assert(ctl.state.tags@ =~= pre.state.tags@ + Seq::new(
                    i as nat,
                    |k: int| generation,
                ));
            }
        } else {
            assert(ctl.state.buffer@ =~= pre.state.buffer@ + chunk@.take(0));
            assert(ctl.state.tags@ =~= pre.state.tags@ + Seq::new(0, |i: int| generation));
        }
        FULL_SLEEP_MS
    }
}

/// Whatever the buffer holds was decoded for the generation that is
/// current: audio of an earlier source is gone before any of it can play.
pub proof fn lemma_buffer_is_current<S>(ctl: AudioControl<S>, i: int)
    requires
        ctl.wf(),
        0 <= i < ctl.state.buffer@.len(),
    ensures
        ctl.state.tags@[i] == ctl.state.generation,
{
}

/// With nothing buffered, as right after a source swap, a block is silent
/// from end to end: nothing of the earlier source is played.
pub proof fn lemma_empty_buffer_is_silent<S>(
    ctl: AudioControl<S>,
    state_free: bool,
    block: nat,
    i: int,
)
    requires
        ctl.state.buffer@.len() == 0,
        0 <= i < block,
    ensures
        ctl.block_output(state_free, block)[i] == SILENCE,
{
}

/// A block that finds the shared state held elsewhere is silent from end
/// to end and takes nothing from the buffer.
pub proof fn lemma_contended_block_is_silent<S>(ctl: AudioControl<S>, block: nat, i: int)
    requires
        0 <= i < block,
    ensures
        ctl.drained_count(false, block) == 0,
        ctl.block_output(false, block)[i] == SILENCE,
{
}

} // verus!
