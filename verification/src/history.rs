//! A rolling record of what went into the gain stage and what came out,
//! kept for diagnostics. Only the first channel is recorded, and only the
//! latest window of it.

use std::collections::VecDeque;
use vstd::prelude::*;

verus! {

/// The window that diagnostics plot: a tenth of a second at 48 kHz.
pub const PLOT_WINDOW: usize = 4800;

/// How many frames a block of `len` interleaved samples touches when a
/// frame has `channels` samples: the last one may be cut short.
pub open spec fn frames_in(len: nat, channels: nat) -> nat {
    if channels == 0 {
        0
    } else {
        ((len + channels - 1) / channels as int) as nat
    }
}

/// The samples of the first channel of an interleaved block: every
/// `channels`-th sample, starting with the first.
pub open spec fn first_channel(block: Seq<u32>, channels: nat) -> Seq<u32> {
    Seq::new(frames_in(block.len(), channels), |k: int| block[k * channels])
}

/// The latest `window` values of `values`, or all of them if there are fewer.
pub open spec fn keep_last(values: Seq<u32>, window: nat) -> Seq<u32> {
    if values.len() <= window {
        values
    } else {
        values.skip(values.len() - window)
    }
}

/// What a history holds.
#[verifier::ext_equal]
pub struct HistoryView {
    /// First-channel samples before the gain, eldest first.
    pub input: Seq<u32>,
    /// The same samples after the gain.
    pub output: Seq<u32>,
    /// Samples per frame of the blocks that are recorded.
    pub channels: nat,
    /// The most that is kept of either.
    pub window: nat,
}

impl HistoryView {
    /// Both records run in step and stay within the window.
    pub open spec fn wf(self) -> bool {
        &&& 0 < self.channels
        &&& 0 < self.window
        &&& self.input.len() == self.output.len()
        &&& self.input.len() <= self.window
    }

    /// The history after one more pair of samples: the eldest pair makes
    /// room once the window is full.
    pub open spec fn record(self, input: u32, output: u32) -> HistoryView {
        HistoryView {
            input: keep_last(self.input.push(input), self.window),
            output: keep_last(self.output.push(output), self.window),
            ..self
        }
    }

    /// The history after a block went through the gain stage: the first
    /// channel of it is appended, and the latest window of the whole kept.
    /// Should one of the two be longer, what it has beyond the other is
    /// left out.
    pub open spec fn record_block(self, input: Seq<u32>, output: Seq<u32>) -> HistoryView {
        let paired = if input.len() <= output.len() {
            input.len() as int
        } else {
            output.len() as int
        };
        HistoryView {
            input: keep_last(
                self.input + first_channel(input.take(paired), self.channels),
                self.window,
            ),
            output: keep_last(
                self.output + first_channel(output.take(paired), self.channels),
                self.window,
            ),
            ..self
        }
    }

    /// The history with nothing recorded.
    pub open spec fn cleared(self) -> HistoryView {
        HistoryView { input: Seq::empty(), output: Seq::empty(), ..self }
    }
}

/// The two records side by side.
#[derive(Debug)]
struct Tracks {
    input: VecDeque<u32>,
    output: VecDeque<u32>,
}

impl Tracks {
    fn new() -> (tracks: Tracks)
        ensures
            tracks.input@ == Seq::<u32>::empty(),
            tracks.output@ == Seq::<u32>::empty(),
    {
        Tracks { input: VecDeque::new(), output: VecDeque::new() }
    }
}

/// Rolling first-channel history of the samples before and after the gain.
#[derive(Debug)]
pub struct SampleHistory {
    tracks: Tracks,
    channels: usize,
    window: usize,
}

impl View for SampleHistory {
    type V = HistoryView;

    closed spec fn view(&self) -> HistoryView {
        HistoryView {
            input: self.tracks.input@,
            output: self.tracks.output@,
            channels: self.channels as nat,
            window: self.window as nat,
        }
    }
}

/// Keeping the latest window after each value is the same as keeping it
/// once at the end.
pub proof fn lemma_keep_last_push(values: Seq<u32>, value: u32, window: nat)
    ensures
        keep_last(keep_last(values, window).push(value), window) == keep_last(
            values.push(value),
            window,
        ),
{
}

/// A block cut right after the first sample of a frame has one sample more
/// in its first channel than the block cut right before it: that sample.
proof fn lemma_first_channel_step(block: Seq<u32>, channels: nat, frames: nat, at: int)
    requires
        0 < channels,
        at == frames * channels,
        at < block.len(),
    ensures
        first_channel(block.take(at + 1), channels) == first_channel(block.take(at), channels).push(
            block[at],
        ),
{
    assert((at + channels - 1) / channels as int == frames) by (nonlinear_arith)
        requires
            at == frames * channels,
            0 < channels,
    ;
    assert((at + 1 + channels - 1) / channels as int == frames + 1) by (nonlinear_arith)
        requires
            at == frames * channels,
            0 < channels,
    ;
    let shorter = first_channel(block.take(at), channels);
    let longer = first_channel(block.take(at + 1), channels);
    assert forall|k: int| 0 <= k < longer.len() implies longer[k] == shorter.push(block[at])[k] by {
        if k < frames {
            assert(k * channels < at) by (nonlinear_arith)
                requires
                    0 <= k < frames,
                    at == frames * channels,
                    0 < channels,
            ;
        }
    }
}

/// What follows the first sample of the last frame adds nothing to the
/// first channel.
proof fn lemma_first_channel_tail(block: Seq<u32>, channels: nat, frames: nat, at: int)
    requires
        0 < channels,
        at == frames * channels,
        at < block.len() <= at + channels,
    ensures
        first_channel(block, channels) == first_channel(block.take(at + 1), channels),
{
    let len = block.len();
    assert((len + channels - 1) / channels as int == frames + 1) by (nonlinear_arith)
        requires
            at == frames * channels,
            at < len <= at + channels,
            0 < channels,
    ;
    assert((at + 1 + channels - 1) / channels as int == frames + 1) by (nonlinear_arith)
        requires
            at == frames * channels,
            0 < channels,
    ;
    let whole = first_channel(block, channels);
    let head = first_channel(block.take(at + 1), channels);
    assert forall|k: int| 0 <= k < whole.len() implies whole[k] == head[k] by {
        assert(k * channels <= at) by (nonlinear_arith)
            requires
                0 <= k <= frames,
                at == frames * channels,
                0 < channels,
        ;
    }
}

/// The same for a block cut at the start of the next frame, or anywhere
/// before it.
proof fn lemma_first_channel_gap(block: Seq<u32>, channels: nat, frames: nat, at: int, cut: int)
    requires
        0 < channels,
        at == frames * channels,
        at < cut <= at + channels,
        cut <= block.len(),
    ensures
        first_channel(block.take(cut), channels) == first_channel(block.take(at + 1), channels),
{
    lemma_first_channel_tail(block.take(cut), channels, frames, at);
    assert(block.take(cut).take(at + 1) =~= block.take(at + 1));
}

impl SampleHistory {
    #[verifier::type_invariant]
    spec fn inv(self) -> bool {
        self@.wf()
    }

    /// An empty history for blocks of `channels` interleaved channels that
    /// keeps the latest `window` samples. `None` when either is zero.
    pub fn new(channels: usize, window: usize) -> (made: Option<SampleHistory>)
        ensures
            made is Some <==> 0 < channels && 0 < window,
            made matches Some(history) ==> history@ == (HistoryView {
                input: Seq::empty(),
                output: Seq::empty(),
                channels: channels as nat,
                window: window as nat,
            }),
    {
        if channels == 0 || window == 0 {
            return None;
        }
        Some(SampleHistory { tracks: Tracks::new(), channels, window })
    }

    /// Records one sample of the first channel before and after the gain.
    pub fn record(&mut self, input: u32, output: u32)
        ensures
            final(self)@ == old(self)@.record(input, output),
            final(self)@.wf(),
    {
        proof {
            use_type_invariant(&*self);
        }
        // The records leave the history while they change, so that it is
        // whole at every point.
        let mut tracks = Tracks::new();
        core::mem::swap(&mut self.tracks, &mut tracks);
        if tracks.input.len() >= self.window {
            let _ = tracks.input.pop_front();
            let _ = tracks.output.pop_front();
        }
        tracks.input.push_back(input);
        tracks.output.push_back(output);
        core::mem::swap(&mut self.tracks, &mut tracks);
    }

    /// Records a block of interleaved samples as it went into the gain
    /// stage and as it came out: the first sample of each frame.
    pub fn record_block(&mut self, input: &[u32], output: &[u32])
        ensures
            final(self)@ == old(self)@.record_block(input@, output@),
            final(self)@.wf(),
    {
        proof {
            use_type_invariant(&*self);
        }
        let len = if input.len() <= output.len() {
            input.len()
        } else {
            output.len()
        };
        let channels = self.channels;
        let ghost before = input@.take(len as int);
        let ghost after = output@.take(len as int);
        let mut at: usize = 0;
        let ghost mut frames: nat = 0;
        proof {
            assert((channels - 1) / channels as int == 0) by (nonlinear_arith)
                requires
                    0 < channels,
            ;
        }
        while at < len
            invariant
                len <= input@.len(),
                len <= output@.len(),
                before == input@.take(len as int),
                after == output@.take(len as int),
                0 < channels == old(self)@.channels,
                0 < old(self)@.window,
                self@.channels == old(self)@.channels,
                self@.window == old(self)@.window,
                at <= len,
                at < len ==> at == frames * channels,
                self@.input == keep_last(
                    old(self)@.input + first_channel(before.take(at as int), channels as nat),
                    self@.window,
                ),
                self@.output == keep_last(
                    old(self)@.output + first_channel(after.take(at as int), channels as nat),
                    self@.window,
                ),
            decreases len - at,
        {
            let ghost seen_in = old(self)@.input + first_channel(
                before.take(at as int),
                channels as nat,
            );
            let ghost seen_out = old(self)@.output + first_channel(
                after.take(at as int),
                channels as nat,
            );
            self.record(input[at], output[at]);
            let next = if channels >= len - at {
                len
            } else {
                at + channels
            };
            proof {
                let ch = channels as nat;
                lemma_first_channel_step(before, ch, frames, at as int);
                lemma_first_channel_step(after, ch, frames, at as int);
                lemma_keep_last_push(seen_in, before[at as int], self@.window);
                lemma_keep_last_push(seen_out, after[at as int], self@.window);
                lemma_first_channel_gap(before, ch, frames, at as int, next as int);
                lemma_first_channel_gap(after, ch, frames, at as int, next as int);
                assert((frames + 1) * ch == frames * ch + ch) by (nonlinear_arith);
                frames = frames + 1;
            }
            at = next;
        }
        proof {
            assert(before.take(len as int) =~= before);
            assert(after.take(len as int) =~= after);
        }
    }

    /// Forgets everything recorded.
    pub fn clear(&mut self)
        ensures
            final(self)@ == old(self)@.cleared(),
            final(self)@.wf(),
    {
        proof {
            use_type_invariant(&*self);
        }
        let mut tracks = Tracks::new();
        core::mem::swap(&mut self.tracks, &mut tracks);
    }

    /// The recorded samples before the gain, eldest first.
    pub fn input(&self) -> (samples: Vec<u32>)
        ensures
            samples@ == self@.input,
    {
        copy_out(&self.tracks.input)
    }

    /// The recorded samples after the gain, eldest first.
    pub fn output(&self) -> (samples: Vec<u32>)
        ensures
            samples@ == self@.output,
    {
        copy_out(&self.tracks.output)
    }

    /// Samples per frame of the blocks that are recorded.
    pub fn channels(&self) -> (channels: usize)
        ensures
            channels == self@.channels,
    {
        self.channels
    }

    /// The most that is kept.
    pub fn window(&self) -> (window: usize)
        ensures
            window == self@.window,
    {
        self.window
    }

    /// How many samples of the first channel are on record.
    pub fn len(&self) -> (len: usize)
        ensures
            len == self@.input.len(),
            len == self@.output.len(),
            len <= self@.window,
    {
        proof {
            use_type_invariant(self);
        }
        self.tracks.input.len()
    }
}

/// The contents of a queue, front first.
fn copy_out(queue: &VecDeque<u32>) -> (samples: Vec<u32>)
    ensures
        samples@ == queue@,
{
    let mut samples: Vec<u32> = Vec::with_capacity(queue.len());
    let mut i: usize = 0;
    while i < queue.len()
        invariant
            i <= queue@.len(),
            samples@ == queue@.take(i as int),
        decreases queue@.len() - i,
    {
        samples.push(queue[i]);
        i += 1;
    }
    samples
}

/// How many plot files diagnostics rotate through.
pub const SNAPSHOT_FILES: u32 = 10;

/// The slot of the plot after the one written to slot `index`: the slots
/// are used in turn, and the first again after the last.
pub fn next_snapshot(index: u32) -> (next: u32)
    ensures
        next == (index + 1) % (SNAPSHOT_FILES as int),
        next < SNAPSHOT_FILES,
{
    (index % SNAPSHOT_FILES + 1) % SNAPSHOT_FILES
}

} // verus!
