//! Mono sample queue between the speech input and the paired output.
//!
//! The queue is generic in the sample type: samples are queued, handed out
//! in arrival order and never computed with. Mixing several channels down to
//! one is left to a function that the caller supplies.
use std::collections::VecDeque;
use vstd::prelude::*;

verus! {

/// What an [`AudioBuf`] holds, as plain mathematics.
#[verifier::ext_equal]
pub struct AudioState<S> {
    /// Samples not yet handed out, oldest first.
    pub samples: Seq<S>,
    /// Sample rate in Hz; `0` until the first audio packet.
    pub sample_rate: nat,
    /// Samples handed out so far, padding included.
    pub emitted: nat,
}

impl<S> AudioState<S> {
    /// The state before any audio has arrived.
    pub open spec fn empty() -> AudioState<S> {
        AudioState { samples: Seq::empty(), sample_rate: 0, emitted: 0 }
    }

    /// The first packet fixes the sample rate, every packet appends its samples.
    pub open spec fn received(self, mono: Seq<S>, rate: nat) -> AudioState<S> {
        AudioState {
            samples: self.samples + mono,
            sample_rate: if self.sample_rate == 0 {
                rate
            } else {
                self.sample_rate
            },
            emitted: self.emitted,
        }
    }

    /// The queue without its `n` oldest samples (all of them, if it holds fewer).
    pub open spec fn skipped(self, n: nat) -> AudioState<S> {
        AudioState { samples: drop_front(self.samples, n), ..self }
    }

    /// Forgets the queued samples. The sample rate stays, and so does the count of
    /// what was handed out, which goes on with the pictures.
    pub open spec fn flushed(self) -> AudioState<S> {
        AudioState { samples: Seq::empty(), ..self }
    }

    /// The state after a chunk of `n` samples was handed out.
    pub open spec fn drained(self, n: nat) -> AudioState<S> {
        AudioState { samples: drop_front(self.samples, n), emitted: self.emitted + n, ..self }
    }

    /// The chunk of `n` samples that is handed out next: queued samples first,
    /// then silence.
    pub open spec fn chunk(self, n: nat, silence: S) -> Seq<S> {
        Seq::new(
            n,
            |i: int|
                if i < self.samples.len() {
                    self.samples[i]
                } else {
                    silence
                },
        )
    }

    /// Samples still owed once `frames` video frames are out at `fps` frames per second.
    pub open spec fn owed(self, frames: nat, fps: nat) -> nat {
        let total = samples_through(frames, self.sample_rate, fps);
        if total >= self.emitted {
            (total - self.emitted) as nat
        } else {
            0
        }
    }
}

/// `s` without its first `n` elements.
pub open spec fn drop_front<S>(s: Seq<S>, n: nat) -> Seq<S> {
    if n >= s.len() {
        Seq::empty()
    } else {
        s.subrange(n as int, s.len() as int)
    }
}

/// Samples that belong to the first `frames` video frames.
pub open spec fn samples_through(frames: nat, rate: nat, fps: nat) -> nat {
    (frames * rate) / fps
}

/// Number of whole frames of `channels` samples each in `len` samples.
pub open spec fn whole_frames(len: nat, channels: nat) -> nat {
    len / channels
}

/// Queue of mono samples with the sample rate of the first packet and the number
/// of samples handed out so far.
pub struct AudioBuf<S> {
    samples: VecDeque<S>,
    sample_rate: u32,
    samples_emitted: u64,
}

impl<S> View for AudioBuf<S> {
    type V = AudioState<S>;

    closed spec fn view(&self) -> AudioState<S> {
        AudioState {
            samples: self.samples@,
            sample_rate: self.sample_rate as nat,
            emitted: self.samples_emitted as nat,
        }
    }
}

impl<S: Copy> AudioBuf<S> {
    /// An empty queue of unknown sample rate.
    pub fn new() -> (buf: Self)
        ensures
            buf@ == AudioState::<S>::empty(),
    {
        AudioBuf {
            samples: VecDeque::with_capacity(192_000),
            sample_rate: 0,
            samples_emitted: 0,
        }
    }

    /// Sample rate in Hz, `0` before the first packet.
    pub fn sample_rate(&self) -> (r: u32)
        ensures
            r == self@.sample_rate,
    {
        self.sample_rate
    }

    /// Number of queued samples.
    pub fn len(&self) -> (r: usize)
        ensures
            r == self@.samples.len(),
    {
        self.samples.len()
    }

    /// Whether no sample is queued.
    pub fn is_empty(&self) -> (r: bool)
        ensures
            r == (self@.samples.len() == 0),
    {
        self.samples.len() == 0
    }

    /// Samples handed out so far, padding included.
    pub fn samples_emitted(&self) -> (r: u64)
        ensures
            r == self@.emitted,
    {
        self.samples_emitted
    }

    /// Queues one packet of interleaved samples.
    ///
    /// A mono packet is queued as it is. Any other packet is cut into frames of
    /// `channels` samples, each frame is reduced to one sample by `mix`, and a
    /// trailing partial frame is dropped. The first packet fixes the sample rate.
    pub fn receive<M: Fn(&[S]) -> S>(&mut self, packet: &[S], rate: u32, channels: u32, mix: M)
        requires
            channels >= 1,
            forall|frame: &[S]| frame@.len() == channels ==> call_requires(mix, (frame,)),
        ensures
            channels == 1 ==> final(self)@ == old(self)@.received(packet@, rate as nat),
            channels != 1 ==> exists|mono: Seq<S>| #[trigger]
                mixed_down(packet@, channels as nat, mix, mono) && final(self)@ == old(
                    self,
                )@.received(mono, rate as nat),
    {
        let ghost before = self@;
        if self.sample_rate == 0 {
            self.sample_rate = rate;
        }
        if channels == 1 {
            let mut i: usize = 0;
            while i < packet.len()
                invariant
                    i <= packet.len(),
                    self@.samples == before.samples + packet@.take(i as int),
                    self.sample_rate == (if before.sample_rate == 0 {
                        rate as nat
                    } else {
                        before.sample_rate
                    }),
                    self.samples_emitted == before.emitted,
                decreases packet.len() - i,
            {
                self.samples.push_back(packet[i]);
                assert(packet@.take(i + 1) =~= packet@.take(i as int).push(packet@[i as int]));
                i = i + 1;
            }
            assert(packet@.take(packet@.len() as int) =~= packet@);
            assert(self@ =~= before.received(packet@, rate as nat));
        } else {
            let n: usize = channels as usize;
            let count: usize = packet.len() / n;
            let mut k: usize = 0;
            let ghost mut mono: Seq<S> = Seq::empty();
            assert(count * n <= packet.len()) by (nonlinear_arith)
                requires
                    n >= 1,
                    count == packet.len() / n,
            ;
            while k < count
                invariant
                    k <= count,
                    n == channels,
                    n >= 1,
                    count == packet@.len() / n as nat,
                    count * n <= packet@.len(),
                    packet@.len() <= usize::MAX,
                    forall|frame: &[S]| frame@.len() == channels ==> call_requires(mix, (frame,)),
                    mono.len() == k,
                    forall|j: int|
                        0 <= j < k ==> mixed_frame(packet@, channels as nat, mix, j, #[trigger] mono[j]),
                    self@.samples == before.samples + mono,
                    self.sample_rate == (if before.sample_rate == 0 {
                        rate as nat
                    } else {
                        before.sample_rate
                    }),
                    self.samples_emitted == before.emitted,
                decreases count - k,
            {
                assert(k * n + n <= count * n) by (nonlinear_arith)
                    requires
                        k < count,
                        n >= 1,
                ;
                assert(k * n >= 0) by (nonlinear_arith)
                    requires
                        k >= 0,
                        n >= 1,
                ;
                let start: usize = k * n;
                let frame: &[S] = vstd::slice::slice_subrange(packet, start, start + n);
                let one: S = mix(frame);
                self.samples.push_back(one);
                proof {
                    assert(frame@ == packet@.subrange(k * n, k * n + n));
                    assert(mixed_frame(packet@, channels as nat, mix, k as int, one));
                    let ghost grown = mono.push(one);
                    assert(before.samples + grown =~= (before.samples + mono).push(one));
                    assert forall|j: int| 0 <= j < k + 1 implies mixed_frame(
                        packet@,
                        channels as nat,
                        mix,
                        j,
                        #[trigger] grown[j],
                    ) by {
                        if j < k {
                            assert(grown[j] == mono[j]);
                        }
                    }
                    mono = grown;
                }
                k = k + 1;
            }
            assert(mixed_down(packet@, channels as nat, mix, mono));
            assert(self@ =~= before.received(mono, rate as nat));
        }
    }

    /// Drops the `n` oldest samples without counting them as handed out.
    pub fn skip(&mut self, n: usize)
        ensures
            final(self)@ == old(self)@.skipped(n as nat),
    {
        let ghost before = self@;
        let len: usize = self.samples.len();
        let take: usize = if n < len {
            n
        } else {
            len
        };
        let mut i: usize = 0;
        while i < take
            invariant
                i <= take,
                take <= before.samples.len(),
                self@ == (AudioState {
                    samples: before.samples.subrange(i as int, before.samples.len() as int),
                    ..before
                }),
            decreases take - i,
        {
            let _ = self.samples.pop_front();
            assert(self@.samples =~= before.samples.subrange(i + 1, before.samples.len() as int));
            i = i + 1;
        }
        assert(self@ =~= before.skipped(n as nat));
    }

    /// Forgets the queued samples.
    pub fn flush(&mut self)
        ensures
            final(self)@ == old(self)@.flushed(),
    {
        self.samples.clear();
        assert(self@ =~= old(self)@.flushed());
    }

    /// Hands out the next `want` samples, padding with `silence` once the queue
    /// runs dry.
    pub fn drain(&mut self, want: usize, silence: S) -> (chunk: Vec<S>)
        requires
            old(self)@.emitted + want <= u64::MAX,
        ensures
            chunk@ == old(self)@.chunk(want as nat, silence),
            final(self)@ == old(self)@.drained(want as nat),
    {
        let ghost before = self@;
        let mut chunk: Vec<S> = Vec::with_capacity(want);
        let mut i: usize = 0;
        while i < want
            invariant
                i <= want,
                chunk@ == before.chunk(i as nat, silence),
                self@ == (AudioState { samples: drop_front(before.samples, i as nat), ..before }),
            decreases want - i,
        {
            match self.samples.pop_front() {
                Some(s) => chunk.push(s),
                None => chunk.push(silence),
            }
            assert(chunk@ =~= before.chunk((i + 1) as nat, silence));
            assert(self@.samples =~= drop_front(before.samples, (i + 1) as nat));
            i = i + 1;
        }
        self.samples_emitted = self.samples_emitted + want as u64;
        assert(self@ =~= before.drained(want as nat));
        chunk
    }
}

/// Sample `one` is what `mix` makes of frame number `k` of the packet.
pub open spec fn mixed_frame<S, M: Fn(&[S]) -> S>(
    packet: Seq<S>,
    channels: nat,
    mix: M,
    k: int,
    one: S,
) -> bool {
    exists|frame: &[S]| #[trigger]
        call_ensures(mix, (frame,), one) && frame@ == packet.subrange(
            k * channels,
            k * channels + channels,
        )
}

/// `mono` holds one mixed sample per whole frame of the packet, in order.
pub open spec fn mixed_down<S, M: Fn(&[S]) -> S>(
    packet: Seq<S>,
    channels: nat,
    mix: M,
    mono: Seq<S>,
) -> bool {
    &&& mono.len() == whole_frames(packet.len(), channels)
    &&& forall|k: int|
        0 <= k < mono.len() ==> mixed_frame(packet, channels, mix, k, #[trigger] mono[k])
}

} // verus!
