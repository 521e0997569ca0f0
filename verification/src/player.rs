use vstd::prelude::*;

use crate::duration::{push_mmss, spec_label};
use crate::track::{Track, TrackView, track_views};

verus! {

/// The queue indices `lo`, `lo + 1`, ..., `hi - 1`, in order: the streams an
/// output sink still holds when it was fed the tracks from `lo` up to the
/// end of a queue of length `hi`.
pub open spec fn pending_from(lo: int, hi: int) -> Seq<usize> {
    Seq::new(if lo <= hi { (hi - lo) as nat } else { 0 }, |k: int| (lo + k) as usize)
}

/// A cyclic rotation of `catalog` beginning at index `start`:
/// element `i` is `catalog[(start + i) mod N]`.
pub open spec fn rotation_of(catalog: Seq<TrackView>, start: int) -> Seq<TrackView> {
    Seq::new(catalog.len(), |i: int| catalog[(start + i) % (catalog.len() as int)])
}

/// What "now playing" must show for a queue and a position: the track at the
/// position, or nothing when the queue is empty.
pub open spec fn projection_of(queue: Seq<TrackView>, idx: int) -> Option<TrackView> {
    if queue.len() > 0 {
        Some(queue[idx])
    } else {
        None
    }
}

/// Effect of one stream-completion signal on the position counter: advance
/// by one, saturating at the last track.
pub open spec fn complete_step(idx: int, len: int) -> int {
    if idx + 1 < len {
        idx + 1
    } else {
        idx
    }
}

/// The position counter after `k` completion signals, starting from a
/// freshly built queue (counter zero).
pub open spec fn iterate_complete(k: nat, len: int) -> int
    decreases k,
{
    if k == 0 {
        0
    } else {
        complete_step(iterate_complete((k - 1) as nat, len), len)
    }
}

/// Completion monotonicity: letting the streams of a freshly built queue of
/// `len` tracks run out one after the other moves the position counter to
/// 1, 2, ..., one step per completion, never skipping and never passing
/// `len - 1`, where it stays.
pub proof fn lemma_completion_monotonic(k: nat, len: int)
    requires
        len >= 1,
    ensures
        iterate_complete(k, len) == if k <= len - 1 {
            k as int
        } else {
            len - 1
        },
    decreases k,
{
    if k > 0 {
        lemma_completion_monotonic((k - 1) as nat, len);
    }
}

proof fn lemma_rot_step(m: int, n: int)
    requires
        0 <= m,
        0 < n,
    ensures
        (m + 1) % n == if (m % n) + 1 == n {
            0int
        } else {
            (m % n) + 1
        },
{
    vstd::arithmetic::div_mod::lemma_mod_bound(m, n);
    vstd::arithmetic::div_mod::lemma_fundamental_div_mod(m, n);
    let r = m % n;
    let q = m / n;
    if r + 1 == n {
        assert(m + 1 == n * (q + 1) + 0) by (nonlinear_arith)
            requires
                m == n * q + r,
                r + 1 == n,
        ;
        vstd::arithmetic::div_mod::lemma_mod_multiples_vanish(q + 1, 0, n);
        vstd::arithmetic::div_mod::lemma_small_mod(0, n as nat);
    } else {
        vstd::arithmetic::div_mod::lemma_mod_multiples_vanish(q, r + 1, n);
        vstd::arithmetic::div_mod::lemma_small_mod((r + 1) as nat, n as nat);
    }
}

/// The playback-queue engine: owns the rotated queue and the shared position
/// counter, derives the "now playing" projection from them, and models the
/// control state of the output sink (its pending streams, as queue indices,
/// and its paused flag) so that every transport decision is made here. The
/// audio plumbing around it performs each decision on the real device.
pub struct Player {
    queue: Vec<Track>,
    queue_idx: usize,
    now_playing: Option<Track>,
    paused: bool,
    sink: Ghost<Seq<usize>>,
}

impl Player {
    /// Counter invariant: the position stays within the queue.
    #[verifier::type_invariant]
    spec fn wf(&self) -> bool {
        &&& self.queue.len() > 0 ==> self.queue_idx < self.queue.len()
        &&& self.queue.len() == 0 ==> self.queue_idx == 0
    }

    /// The queued tracks, in playback order.
    pub closed spec fn queue_view(&self) -> Seq<TrackView> {
        track_views(self.queue@)
    }

    /// The position counter.
    pub closed spec fn position(&self) -> int {
        self.queue_idx as int
    }

    /// The cached "now playing" snapshot.
    pub closed spec fn now_playing_view(&self) -> Option<TrackView> {
        match self.now_playing {
            Some(t) => Some(t@),
            None => None,
        }
    }

    /// Is the modeled output sink paused?
    pub closed spec fn spec_paused(&self) -> bool {
        self.paused
    }

    /// The streams the modeled output sink still holds, as queue indices in
    /// playback order.
    pub closed spec fn sink_pending(&self) -> Seq<usize> {
        self.sink@
    }

    /// The sink model agrees with the counter: it holds exactly the streams
    /// from the current position through the end of the queue — except that
    /// after the final stream has completed, it is empty while the counter
    /// rests on the last track.
    pub open spec fn sink_in_sync(&self) -> bool {
        ||| self.sink_pending() == pending_from(self.position(), self.queue_view().len() as int)
        ||| (self.queue_view().len() > 0 && self.position() == self.queue_view().len() - 1
            && self.sink_pending() == Seq::<usize>::empty())
    }

    /// A player with no queue built: nothing playing, nothing pending.
    pub fn init() -> (p: Player)
        ensures
            p.queue_view().len() == 0,
            p.position() == 0,
            p.now_playing_view() is None,
            p.sink_pending() == Seq::<usize>::empty(),
            !p.spec_paused(),
            p.sink_in_sync(),
    {
        let p = Player {
            queue: Vec::new(),
            queue_idx: 0,
            now_playing: None,
            paused: false,
            sink: Ghost(Seq::empty()),
        };
        proof {
            assert(p.sink_pending() =~= pending_from(0, 0));
        }
        p
    }

    /// Rebuilds the queue as the rotation of `playlist` beginning at
    /// `start_idx`, resets the position counter, and (like the output sink
    /// it models, which is cleared and then fed every rotated track in
    /// order) leaves the whole queue pending and the sink paused. Nothing
    /// is playing until `play` is called.
    pub fn set_queue(&mut self, playlist: &Vec<Track>, start_idx: usize)
        ensures
            final(self).queue_view() == rotation_of(track_views(playlist@), start_idx as int),
            final(self).position() == 0,
            final(self).now_playing_view() is None,
            final(self).spec_paused(),
            final(self).sink_pending() == pending_from(0, playlist@.len() as int),
            final(self).sink_in_sync(),
    {
        self.queue_idx = 0;
        self.now_playing = None;
        self.paused = true;
        let n = playlist.len();
        let mut q: Vec<Track> = Vec::new();
        if n > 0 {
            let mut idx = start_idx % n;
            proof {
                vstd::arithmetic::div_mod::lemma_mod_bound(start_idx as int, n as int);
            }
            let mut i: usize = 0;
            while i < n
                invariant
                    n == playlist.len(),
                    n > 0,
                    i <= n,
                    q.len() == i,
                    idx < n,
                    idx as int == (start_idx as int + i as int) % (n as int),
                    forall|j: int|
                        0 <= j < i ==> q@[j]@ == playlist@[(start_idx as int + j) % (n as int)]@,
                decreases n - i,
            {
                let t = playlist[idx].clone();
                q.push(t);
                proof {
                    lemma_rot_step(start_idx as int + i as int, n as int);
                }
                idx = if idx + 1 == n {
                    0
                } else {
                    idx + 1
                };
                i += 1;
            }
        }
        self.queue = q;
        self.sink = Ghost(pending_from(0, n as int));
        proof {
            let catalog = track_views(playlist@);
            assert forall|j: int| 0 <= j < n implies self.queue_view()[j] == catalog[(
                start_idx as int + j) % (n as int)] by {
                vstd::arithmetic::div_mod::lemma_mod_bound(start_idx as int + j, n as int);
            }
            assert(self.queue_view() =~= rotation_of(catalog, start_idx as int));
        }
    }

    /// Recomputes the "now playing" snapshot from the queue and the position
    /// counter.
    pub fn set_now_playing(&mut self)
        ensures
            final(self).queue_view() == old(self).queue_view(),
            final(self).position() == old(self).position(),
            final(self).spec_paused() == old(self).spec_paused(),
            final(self).sink_pending() == old(self).sink_pending(),
            final(self).now_playing_view() == projection_of(
                old(self).queue_view(),
                old(self).position(),
            ),
    {
        proof {
            use_type_invariant(&*self);
        }
        if self.queue_idx < self.queue.len() {
            let t = self.queue[self.queue_idx].clone();
            self.now_playing = Some(t);
        } else {
            self.now_playing = None;
        }
    }

    /// Starts (or resumes) playback: recomputes the "now playing" snapshot,
    /// then unpauses the sink.
    pub fn play(&mut self)
        ensures
            final(self).queue_view() == old(self).queue_view(),
            final(self).position() == old(self).position(),
            final(self).sink_pending() == old(self).sink_pending(),
            !final(self).spec_paused(),
            final(self).now_playing_view() == projection_of(
                old(self).queue_view(),
                old(self).position(),
            ),
            old(self).sink_in_sync() ==> final(self).sink_in_sync(),
    {
        self.set_now_playing();
        proof {
            use_type_invariant(&*self);
        }
        self.paused = false;
    }

    /// Pauses a playing sink and resumes a paused one. The paused flag here
    /// models the sink's own, the single source of truth.
    pub fn toggle_play(&mut self)
        ensures
            final(self).queue_view() == old(self).queue_view(),
            final(self).position() == old(self).position(),
            final(self).now_playing_view() == old(self).now_playing_view(),
            final(self).sink_pending() == old(self).sink_pending(),
            final(self).spec_paused() == !old(self).spec_paused(),
            old(self).sink_in_sync() ==> final(self).sink_in_sync(),
    {
        proof {
            use_type_invariant(&*self);
        }
        if self.paused {
            self.paused = false;
        } else {
            self.paused = true;
        }
    }

    /// Advances to the next track, when there is one: acts only below the
    /// last position (at the last track it is a no-op). On success the
    /// counter moves forward by one, the snapshot is recomputed, and the
    /// front pending stream is dropped — the sink skips to the next stream
    /// it already holds, nothing is re-decoded. The caller performs the skip
    /// on the real sink exactly when `acted` is returned.
    pub fn next(&mut self) -> (acted: bool)
        ensures
            acted == (old(self).queue_view().len() > 0 && old(self).position() < old(
                self,
            ).queue_view().len() - 1),
            final(self).queue_view() == old(self).queue_view(),
            final(self).spec_paused() == old(self).spec_paused(),
            acted ==> {
                &&& final(self).position() == old(self).position() + 1
                &&& final(self).now_playing_view() == projection_of(
                    old(self).queue_view(),
                    old(self).position() + 1,
                )
                &&& final(self).sink_pending() == (if old(self).sink_pending().len() > 0 {
                    old(self).sink_pending().drop_first()
                } else {
                    old(self).sink_pending()
                })
            },
            !acted ==> *final(self) == *old(self),
            old(self).sink_in_sync() ==> final(self).sink_in_sync(),
    {
        proof {
            use_type_invariant(&*self);
        }
        if self.queue.len() > 0 && self.queue_idx < self.queue.len() - 1 {
            self.queue_idx = self.queue_idx + 1;
            self.set_now_playing();
            self.sink = Ghost(
                if self.sink@.len() > 0 {
                    self.sink@.drop_first()
                } else {
                    self.sink@
                },
            );
            proof {
                if old(self).sink_in_sync() {
                    assert(pending_from(old(self).position(), self.queue.len() as int).drop_first()
                        =~= pending_from(old(self).position() + 1, self.queue.len() as int));
                }
            }
            true
        } else {
            false
        }
    }

    /// Steps back to the previous track, when there is one: acts only above
    /// position zero (at the first track it is a no-op). On success the
    /// counter moves back by one and the sink model is re-enqueued from the
    /// new position through the end of the queue, then playback resumes —
    /// the real sink cannot rewind a consumed stream, so the caller clears
    /// it and re-decodes those tracks from their files exactly when `acted`
    /// is returned.
    pub fn prev(&mut self) -> (acted: bool)
        ensures
            acted == (old(self).position() > 0),
            final(self).queue_view() == old(self).queue_view(),
            acted ==> {
                &&& final(self).position() == old(self).position() - 1
                &&& final(self).now_playing_view() == projection_of(
                    old(self).queue_view(),
                    old(self).position() - 1,
                )
                &&& final(self).sink_pending() == pending_from(
                    old(self).position() - 1,
                    old(self).queue_view().len() as int,
                )
                &&& !final(self).spec_paused()
                &&& final(self).sink_in_sync()
            },
            !acted ==> *final(self) == *old(self),
            old(self).sink_in_sync() ==> final(self).sink_in_sync(),
    {
        proof {
            use_type_invariant(&*self);
        }
        if self.queue_idx > 0 {
            self.queue_idx = self.queue_idx - 1;
            self.reset_queue();
            self.set_now_playing();
            proof {
                use_type_invariant(&*self);
            }
            self.paused = false;
            true
        } else {
            false
        }
    }

    /// One stream-completion signal, fired by the audio-rendering path when
    /// the current track runs out: the counter advances by one, saturating
    /// at the last track; the completed front stream leaves the sink model;
    /// the snapshot is recomputed.
    pub fn on_track_complete(&mut self)
        ensures
            final(self).queue_view() == old(self).queue_view(),
            final(self).spec_paused() == old(self).spec_paused(),
            final(self).position() == complete_step(
                old(self).position(),
                old(self).queue_view().len() as int,
            ),
            final(self).now_playing_view() == projection_of(
                old(self).queue_view(),
                complete_step(old(self).position(), old(self).queue_view().len() as int),
            ),
            final(self).sink_pending() == (if old(self).sink_pending().len() > 0 {
                old(self).sink_pending().drop_first()
            } else {
                old(self).sink_pending()
            }),
            old(self).sink_in_sync() ==> final(self).sink_in_sync(),
    {
        proof {
            use_type_invariant(&*self);
        }
        if self.queue.len() > 0 && self.queue_idx + 1 < self.queue.len() {
            self.queue_idx = self.queue_idx + 1;
        }
        self.sink = Ghost(
            if self.sink@.len() > 0 {
                self.sink@.drop_first()
            } else {
                self.sink@
            },
        );
        self.set_now_playing();
        proof {
            if old(self).sink_in_sync() {
                let len = self.queue.len() as int;
                if old(self).sink_pending() == pending_from(old(self).position(), len) {
                    if old(self).position() + 1 < len {
                        assert(pending_from(old(self).position(), len).drop_first()
                            =~= pending_from(old(self).position() + 1, len));
                    } else if len > 0 {
                        assert(pending_from(old(self).position(), len).drop_first()
                            =~= Seq::<usize>::empty());
                    } else {
                        assert(pending_from(old(self).position(), len) =~= Seq::<usize>::empty());
                    }
                }
            }
        }
    }

    fn reset_queue(&mut self)
        ensures
            final(self).queue_view() == old(self).queue_view(),
            final(self).position() == old(self).position(),
            final(self).now_playing_view() == old(self).now_playing_view(),
            final(self).spec_paused() == old(self).spec_paused(),
            final(self).sink_pending() == pending_from(
                old(self).position(),
                old(self).queue_view().len() as int,
            ),
    {
        proof {
            use_type_invariant(&*self);
        }
        // The real sink is cleared and fed the streams from the current
        // position through the end of the queue, re-decoded from their
        // files; the model keeps their queue indices.
        self.sink = Ghost(pending_from(self.queue_idx as int, self.queue.len() as int));
    }

    /// The current "now playing" snapshot; never recomputes anything, safe
    /// on every render tick.
    pub fn now_playing(&self) -> (r: Option<&Track>)
        ensures
            (match r {
                Some(t) => self.now_playing_view() == Some(t@),
                None => self.now_playing_view() is None,
            }),
    {
        match &self.now_playing {
            Some(t) => Some(t),
            None => None,
        }
    }

    fn total_duration(&self) -> (r: u64)
        ensures
            r == (match self.now_playing_view() {
                Some(t) => t.duration_ms,
                None => 0u64,
            }),
    {
        match &self.now_playing {
            Some(t) => t.duration_ms(),
            None => 0,
        }
    }

    /// The elapsed/total label, `mm:ss / mm:ss` with whole truncated
    /// seconds, or the placeholder when nothing is playing.
    pub fn print_duration(&self, current_ms: u64) -> (r: String)
        ensures
            r@ == spec_duration_label(self.now_playing_view(), current_ms),
    {
        if self.now_playing.is_none() {
            return "--:-- / --:--".to_owned();
        }
        let tot = self.total_duration();
        let mut s = String::new();
        push_mmss(&mut s, current_ms / 1000);
        s.push(' ');
        s.push('/');
        s.push(' ');
        push_mmss(&mut s, tot / 1000);
        proof {
            assert(s@ =~= spec_duration_label(self.now_playing_view(), current_ms));
        }
        s
    }

    /// How far into the current track playback is, in whole percent,
    /// truncated and clamped to at most 100; zero when nothing is playing
    /// or the track reports no duration.
    pub fn current_duration_percentage(&self, elapsed_ms: u64) -> (r: u16)
        ensures
            r as int == (match self.now_playing_view() {
                Some(t) => percentage_of(t.duration_ms, elapsed_ms),
                None => 0int,
            }),
            r <= 100,
    {
        match &self.now_playing {
            Some(t) => {
                let total = t.duration_ms();
                if total == 0 {
                    0
                } else {
                    let p = (elapsed_ms as u128) * 100 / (total as u128);
                    if p > 100 {
                        100
                    } else {
                        p as u16
                    }
                }
            },
            None => 0,
        }
    }

    /// The queued tracks.
    pub fn queue(&self) -> (r: &Vec<Track>)
        ensures
            track_views(r@) == self.queue_view(),
    {
        &self.queue
    }

    /// The position counter; within the queue whenever the queue is
    /// non-empty, zero otherwise.
    pub fn queue_idx(&self) -> (r: usize)
        ensures
            r as int == self.position(),
            self.queue_view().len() > 0 ==> r < self.queue_view().len(),
            self.queue_view().len() == 0 ==> r == 0,
    {
        proof {
            use_type_invariant(&*self);
        }
        self.queue_idx
    }

    /// Is the modeled sink paused?
    pub fn is_paused(&self) -> (r: bool)
        ensures
            r == self.spec_paused(),
    {
        self.paused
    }
}

/// The elapsed/total label for a "now playing" snapshot: the placeholder
/// when there is none, else both times as `mm:ss`, truncated to whole
/// seconds.
pub open spec fn spec_duration_label(now: Option<TrackView>, current_ms: u64) -> Seq<char> {
    match now {
        None => "--:-- / --:--"@,
        Some(t) => spec_label((current_ms as nat) / 1000, (t.duration_ms as nat) / 1000),
    }
}

/// Elapsed time over total time in whole percent, truncated, clamped to
/// 100; zero for a track without duration.
pub open spec fn percentage_of(duration_ms: u64, elapsed_ms: u64) -> int {
    if duration_ms == 0 {
        0
    } else if (elapsed_ms as int) * 100 / (duration_ms as int) > 100 {
        100
    } else {
        (elapsed_ms as int) * 100 / (duration_ms as int)
    }
}

} // verus!
