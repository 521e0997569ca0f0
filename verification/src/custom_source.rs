use vstd::prelude::*;

verus! {

/// One-shot fuse that stands for the completion callback captured by a
/// decorated audio stream. It begins armed; the first pull that finds the
/// inner stream exhausted fires it, and it can never fire again.
///
/// The audio plumbing that owns the real callback runs the decision made
/// here: it pulls the raw decoder, hands the result to [`forward`], and
/// invokes the callback exactly when `forward` says so.
///
/// [`forward`]: CompletionFuse::forward
pub struct CompletionFuse {
    armed: bool,
}

impl CompletionFuse {
    /// Is the one-shot signal yet to be fired?
    pub closed spec fn spec_armed(&self) -> bool {
        self.armed
    }

    /// A freshly created fuse holds the signal.
    pub fn new() -> (g: CompletionFuse)
        ensures
            g.spec_armed(),
    {
        CompletionFuse { armed: true }
    }

    /// Forwards one pulled item unchanged and decides whether the completion
    /// callback must fire now: exactly on the first pull that finds the
    /// inner stream exhausted. Later pulls after exhaustion never re-fire.
    pub fn forward<T>(&mut self, pulled: Option<T>) -> (r: (Option<T>, bool))
        ensures
            r.0 == pulled,
            r.1 == (pulled is None && old(self).spec_armed()),
            final(self).spec_armed() == (old(self).spec_armed() && pulled is Some),
    {
        match pulled {
            Some(v) => (Some(v), false),
            None => {
                let fire = self.armed;
                self.armed = false;
                (None, fire)
            },
        }
    }
}

/// Plain-value model of a finite decoded audio stream, holding what the
/// playback engine reads from a decoder: the sample data and the stream
/// properties (channel count, sample rate, total duration, current frame
/// length hint).
pub struct SampleStream {
    samples: Vec<i16>,
    pos: usize,
    channels: u16,
    sample_rate: u32,
    total_duration_ms: Option<u64>,
    frame_len: Option<usize>,
}

impl SampleStream {
    #[verifier::type_invariant]
    spec fn wf(&self) -> bool {
        self.pos <= self.samples.len()
    }

    /// The samples not yet pulled.
    pub closed spec fn remaining(&self) -> Seq<i16> {
        self.samples@.skip(self.pos as int)
    }

    pub closed spec fn spec_channels(&self) -> u16 {
        self.channels
    }

    pub closed spec fn spec_sample_rate(&self) -> u32 {
        self.sample_rate
    }

    pub closed spec fn spec_total_duration_ms(&self) -> Option<u64> {
        self.total_duration_ms
    }

    pub closed spec fn spec_frame_len(&self) -> Option<usize> {
        self.frame_len
    }

    /// A stream about to yield `samples` front to back, with the given
    /// reported properties.
    pub fn new(
        samples: Vec<i16>,
        channels: u16,
        sample_rate: u32,
        total_duration_ms: Option<u64>,
        frame_len: Option<usize>,
    ) -> (s: SampleStream)
        ensures
            s.remaining() == samples@,
            s.spec_channels() == channels,
            s.spec_sample_rate() == sample_rate,
            s.spec_total_duration_ms() == total_duration_ms,
            s.spec_frame_len() == frame_len,
    {
        let s = SampleStream { samples, pos: 0, channels, sample_rate, total_duration_ms, frame_len };
        proof {
            assert(s.remaining() =~= s.samples@);
        }
        s
    }

    /// Pulls the next sample, front to back.
    pub fn next(&mut self) -> (r: Option<i16>)
        ensures
            old(self).remaining().len() > 0 ==> {
                &&& r == Some(old(self).remaining()[0])
                &&& final(self).remaining() == old(self).remaining().drop_first()
            },
            old(self).remaining().len() == 0 ==> {
                &&& r is None
                &&& final(self).remaining() == old(self).remaining()
            },
            final(self).spec_channels() == old(self).spec_channels(),
            final(self).spec_sample_rate() == old(self).spec_sample_rate(),
            final(self).spec_total_duration_ms() == old(self).spec_total_duration_ms(),
            final(self).spec_frame_len() == old(self).spec_frame_len(),
    {
        proof {
            use_type_invariant(&*self);
        }
        if self.pos < self.samples.len() {
            let v = self.samples[self.pos];
            self.pos = self.pos + 1;
            proof {
                assert(self.remaining() =~= old(self).remaining().drop_first());
            }
            Some(v)
        } else {
            None
        }
    }
}

/// Decorator around a decoded audio stream that fires a one-shot completion
/// signal when the stream is exhausted, and otherwise forwards everything
/// unchanged: sample data, size hint, channel count, sample rate and total
/// duration. An empty stream fires the signal on the very first pull.
pub struct CustomSource {
    inner: SampleStream,
    fuse: CompletionFuse,
}

impl CustomSource {
    /// The samples the decorated stream will still yield, unchanged from the
    /// inner stream.
    pub closed spec fn remaining(&self) -> Seq<i16> {
        self.inner.remaining()
    }

    /// Is the one-shot completion signal still to be fired?
    pub closed spec fn signal_pending(&self) -> bool {
        self.fuse.spec_armed()
    }

    pub closed spec fn spec_channels(&self) -> u16 {
        self.inner.spec_channels()
    }

    pub closed spec fn spec_sample_rate(&self) -> u32 {
        self.inner.spec_sample_rate()
    }

    pub closed spec fn spec_total_duration_ms(&self) -> Option<u64> {
        self.inner.spec_total_duration_ms()
    }

    pub closed spec fn spec_frame_len(&self) -> Option<usize> {
        self.inner.spec_frame_len()
    }

    /// Wraps a stream together with a fresh one-shot completion signal. The
    /// decoration is purely behavioral: nothing the inner stream reports is
    /// altered.
    pub fn wrap(source: SampleStream) -> (s: Self)
        ensures
            s.remaining() == source.remaining(),
            s.signal_pending(),
            s.spec_channels() == source.spec_channels(),
            s.spec_sample_rate() == source.spec_sample_rate(),
            s.spec_total_duration_ms() == source.spec_total_duration_ms(),
            s.spec_frame_len() == source.spec_frame_len(),
    {
        Self { inner: source, fuse: CompletionFuse::new() }
    }

    /// Pulls the next sample. While the inner stream yields, samples are
    /// forwarded unchanged and the signal stays pending; the first pull that
    /// finds the inner stream exhausted reports the signal (`r.1`), and no
    /// later pull ever reports it again.
    pub fn next(&mut self) -> (r: (Option<i16>, bool))
        ensures
            old(self).remaining().len() > 0 ==> {
                &&& r.0 == Some(old(self).remaining()[0])
                &&& !r.1
                &&& final(self).remaining() == old(self).remaining().drop_first()
                &&& final(self).signal_pending() == old(self).signal_pending()
            },
            old(self).remaining().len() == 0 ==> {
                &&& r.0 is None
                &&& r.1 == old(self).signal_pending()
                &&& final(self).remaining() == old(self).remaining()
                &&& !final(self).signal_pending()
            },
            final(self).spec_channels() == old(self).spec_channels(),
            final(self).spec_sample_rate() == old(self).spec_sample_rate(),
            final(self).spec_total_duration_ms() == old(self).spec_total_duration_ms(),
            final(self).spec_frame_len() == old(self).spec_frame_len(),
    {
        let pulled = self.inner.next();
        self.fuse.forward(pulled)
    }

    /// Same size hint as the inner stream: exactly the samples left.
    pub fn size_hint(&self) -> (r: (usize, Option<usize>))
        ensures
            r.0 == self.remaining().len(),
            r.1 == Some(self.remaining().len() as usize),
    {
        proof {
            use_type_invariant(&self.inner);
        }
        let n = self.inner.samples.len() - self.inner.pos;
        (n, Some(n))
    }

    /// Same current frame length as the inner stream.
    pub fn current_frame_len(&self) -> (r: Option<usize>)
        ensures
            r == self.spec_frame_len(),
    {
        self.inner.frame_len
    }

    /// Same channel count as the inner stream.
    pub fn channels(&self) -> (r: u16)
        ensures
            r == self.spec_channels(),
    {
        self.inner.channels
    }

    /// Same sample rate as the inner stream.
    pub fn sample_rate(&self) -> (r: u32)
        ensures
            r == self.spec_sample_rate(),
    {
        self.inner.sample_rate
    }

    /// Same total duration (in milliseconds) as the inner stream.
    pub fn total_duration(&self) -> (r: Option<u64>)
        ensures
            r == self.spec_total_duration_ms(),
    {
        self.inner.total_duration_ms
    }
}

} // verus!
