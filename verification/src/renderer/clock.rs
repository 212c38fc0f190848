use vstd::prelude::*;
use vstd::arithmetic::div_mod::{
    lemma_fundamental_div_mod, lemma_fundamental_div_mod_converse, lemma_mod_pos_bound,
    lemma_small_mod,
};
use vstd::arithmetic::mul::lemma_mul_is_distributive_add_other_way;

verus! {

/// Smallest per-frame display duration: a frame whose decoded delay is
/// shorter (in particular zero) is floored to it, so no frame ever asks
/// for a zero-length wait.
pub const MIN_FRAME_DURATION_MS: u64 = 10;

/// Largest per-frame display duration a clock accepts (one day); decoded
/// delays above it are capped so deadline arithmetic stays in `u64`.
pub const MAX_FRAME_DURATION_MS: u64 = 86_400_000;

/// Latest timestamp the clock can be advanced to while one more frame
/// duration is still guaranteed to fit in `u64`.
pub const MAX_TIME_MS: u64 = u64::MAX - MAX_FRAME_DURATION_MS;

/// A decoded frame delay clamped into the accepted duration range.
pub open spec fn clamp_duration(d: u64) -> u64 {
    if d < MIN_FRAME_DURATION_MS {
        MIN_FRAME_DURATION_MS
    } else if d > MAX_FRAME_DURATION_MS {
        MAX_FRAME_DURATION_MS
    } else {
        d
    }
}

/// A usable duration list: at least one frame, every duration within
/// the clamped range.
pub open spec fn durations_wf(ds: Seq<u64>) -> bool {
    &&& 0 < ds.len()
    &&& forall|i: int| 0 <= i < ds.len() ==>
        MIN_FRAME_DURATION_MS <= #[trigger] ds[i] <= MAX_FRAME_DURATION_MS
}

/// Total display time of the first `m` frame steps of a looping
/// animation with per-frame durations `ds`: step `j` shows frame
/// `j mod N` for `ds[j mod N]` milliseconds.
pub open spec fn cum(ds: Seq<u64>, m: nat) -> int
    recommends
        0 < ds.len(),
    decreases m,
{
    if m == 0 {
        0
    } else {
        cum(ds, (m - 1) as nat) + ds[((m - 1) as int) % (ds.len() as int)]
    }
}

/// The per-animation frame-advance state machine: a looping sequence of
/// frame durations, the load timestamp (set on the first advance), the
/// deadline at which the next frame becomes active, and the index of the
/// frame active now. `steps` counts frame steps taken since load; it
/// ties the concrete fields to the cumulative-duration timeline.
pub struct AnimationClock {
    pub durations: Vec<u64>,
    pub time_loaded: Option<u64>,
    pub next_deadline: u64,
    pub current_frame: usize,
    pub steps: Ghost<nat>,
}

impl AnimationClock {
    /// Number of frames the clock cycles through.
    pub open spec fn frame_count(self) -> nat {
        self.durations@.len()
    }

    /// Clock invariant: usable durations, the frame index in range, and
    /// once loaded, frame index and deadline sit exactly `steps` frame
    /// steps along the cumulative timeline that starts at load time.
    pub open spec fn wf(self) -> bool {
        &&& durations_wf(self.durations@)
        &&& (self.current_frame as nat) < self.frame_count()
        &&& match self.time_loaded {
            Some(l) => {
                &&& self.current_frame as nat == self.steps@ % self.frame_count()
                &&& self.next_deadline as int == l + cum(self.durations@, self.steps@ + 1)
            },
            None => {
                &&& self.current_frame == 0
                &&& self.steps@ == 0
            },
        }
    }

    /// A fresh, not-yet-loaded clock over the given decoded frame
    /// delays, each clamped into the accepted range.
    pub fn new(raw_delays_ms: &Vec<u64>) -> (c: AnimationClock)
        requires
            0 < raw_delays_ms@.len(),
        ensures
            c.wf(),
            c.time_loaded is None,
            c.current_frame == 0,
            c.frame_count() == raw_delays_ms@.len(),
            forall|i: int| 0 <= i < raw_delays_ms@.len() ==>
                #[trigger] c.durations@[i] == clamp_duration(raw_delays_ms@[i]),
    {
        let mut durations: Vec<u64> = Vec::new();
        let mut idx: usize = 0;
        while idx < raw_delays_ms.len()
            invariant
                idx <= raw_delays_ms@.len(),
                durations@.len() == idx,
                forall|i: int| 0 <= i < idx ==>
                    #[trigger] durations@[i] == clamp_duration(raw_delays_ms@[i]),
            decreases raw_delays_ms@.len() - idx,
        {
            let raw = raw_delays_ms[idx];
            let clamped = if raw < MIN_FRAME_DURATION_MS {
                MIN_FRAME_DURATION_MS
            } else if raw > MAX_FRAME_DURATION_MS {
                MAX_FRAME_DURATION_MS
            } else {
                raw
            };
            durations.push(clamped);
            idx = idx + 1;
        }
        AnimationClock {
            durations,
            time_loaded: None,
            next_deadline: 0,
            current_frame: 0,
            steps: Ghost(0nat),
        }
    }

    /// Everything one call of [`AnimationClock::advance`] promises about
    /// how the clock after the call relates to the clock before it.
    pub open spec fn advance_post(pre: AnimationClock, post: AnimationClock, now: u64) -> bool {
        &&& post.wf()
        &&& post.durations == pre.durations
        &&& (pre.time_loaded is None ==> {
            &&& post.time_loaded == Some(now)
            &&& post.steps@ == 0
            &&& post.current_frame == 0
            &&& post.next_deadline == now + pre.durations@[0]
        })
        &&& (pre.time_loaded matches Some(l) ==> {
            &&& post.time_loaded == Some(l)
            &&& post.steps@ >= pre.steps@
            &&& now < post.next_deadline
            &&& (post.steps@ == pre.steps@ || cum(post.durations@, post.steps@) <= now - l)
        })
    }

    /// Advances the clock to `now`. The first call records `now` as the
    /// load time and arms the first deadline. Later calls step the frame
    /// index forward, one frame per expired deadline, catching up past
    /// every deadline that has already elapsed (so a slow render loop
    /// skips ahead rather than slowing the animation down), and always
    /// leave the next deadline in the future.
    pub fn advance(&mut self, now: u64)
        requires
            old(self).wf(),
            now <= MAX_TIME_MS,
        ensures
            Self::advance_post(*old(self), *final(self), now),
    {
        match self.time_loaded {
            None => {
                let d0 = self.durations[0];
                self.time_loaded = Some(now);
                self.current_frame = 0;
                self.next_deadline = now + d0;
                self.steps = Ghost(0nat);
                proof {
                    lemma_small_mod(0nat, self.durations@.len());
                    assert(cum(self.durations@, 1) == self.durations@[0]);
                }
            },
            Some(l) => {
                let ghost start_steps: nat = self.steps@;
                while now >= self.next_deadline
                    invariant
                        self.wf(),
                        self.time_loaded == Some(l),
                        self.durations == old(self).durations,
                        self.steps@ >= start_steps,
                        self.steps@ == start_steps
                            || cum(self.durations@, self.steps@) <= now - l,
                    decreases
                        if now >= self.next_deadline {
                            now - self.next_deadline + 1
                        } else {
                            0
                        },
                {
                    let len = self.durations.len();
                    let ghost m: nat = self.steps@;
                    let mut frame = self.current_frame + 1;
                    if frame >= len {
                        frame = 0;
                    }
                    proof {
                        lemma_mod_step(m, len as nat);
                    }
                    self.current_frame = frame;
                    let d = self.durations[frame];
                    proof {
                        assert(self.next_deadline as int == l + cum(self.durations@, m + 1));
                        assert(cum(self.durations@, m + 2)
                            == cum(self.durations@, m + 1)
                                + self.durations@[((m + 1) as int) % (self.durations@.len() as int)]);
                    }
                    self.next_deadline = self.next_deadline + d;
                    self.steps = Ghost(self.steps@ + 1);
                }
            },
        }
    }

    /// The clock has been rendered at least once.
    pub fn loaded(&self) -> (r: bool)
        ensures
            r == (self.time_loaded is Some),
    {
        self.time_loaded.is_some()
    }
}

/// Turns a decoded frame delay, given as a millisecond ratio, into whole
/// milliseconds (rounding down, as the decoder's integer ratio does).
pub fn frame_delay_ms(numer_ms: u32, denom_ms: u32) -> (d: u64)
    requires
        denom_ms > 0,
    ensures
        d == numer_ms as int / denom_ms as int,
{
    (numer_ms / denom_ms) as u64
}

/// Stepping a counter forward by one steps its residue forward by one,
/// wrapping at the modulus.
proof fn lemma_mod_step(m: nat, n: nat)
    requires
        0 < n,
    ensures
        (m + 1) % n == if m % n + 1 == n {
            0nat
        } else {
            (m % n + 1) as nat
        },
{
    let mi = m as int;
    let ni = n as int;
    lemma_fundamental_div_mod(mi, ni);
    lemma_mod_pos_bound(mi, ni);
    let q = mi / ni;
    let r = mi % ni;
    assert(mi == ni * q + r);
    if r + 1 == ni {
        lemma_mul_is_distributive_add_other_way(ni, q, 1);
        assert((q + 1) * ni == q * ni + 1 * ni) by (nonlinear_arith);
        assert(ni * q == q * ni) by (nonlinear_arith);
        assert(mi + 1 == (q + 1) * ni + 0);
        lemma_fundamental_div_mod_converse(mi + 1, ni, q + 1, 0);
    } else {
        assert(ni * q == q * ni) by (nonlinear_arith);
        assert(mi + 1 == q * ni + (r + 1));
        lemma_fundamental_div_mod_converse(mi + 1, ni, q, r + 1);
    }
}

/// Cumulative durations grow strictly with the number of steps.
pub proof fn lemma_cum_strictly_increasing(ds: Seq<u64>, m1: nat, m2: nat)
    requires
        durations_wf(ds),
        m1 < m2,
    ensures
        cum(ds, m1) + MIN_FRAME_DURATION_MS <= cum(ds, m2),
    decreases m2,
{
    let last = ((m2 - 1) as int) % (ds.len() as int);
    assert(0 <= last < ds.len());
    assert(ds[last] >= MIN_FRAME_DURATION_MS);
    if m1 + 1 < m2 {
        lemma_cum_strictly_increasing(ds, m1, (m2 - 1) as nat);
    }
}

/// Cumulative durations never shrink.
pub proof fn lemma_cum_monotonic(ds: Seq<u64>, m1: nat, m2: nat)
    requires
        durations_wf(ds),
        m1 <= m2,
    ensures
        cum(ds, m1) <= cum(ds, m2),
{
    if m1 < m2 {
        lemma_cum_strictly_increasing(ds, m1, m2);
    }
}

/// An elapsed time pins down the step count: there is at most one step
/// count whose cumulative window contains it.
pub proof fn lemma_step_count_unique(ds: Seq<u64>, m1: nat, m2: nat, elapsed: int)
    requires
        durations_wf(ds),
        cum(ds, m1) <= elapsed < cum(ds, m1 + 1),
        cum(ds, m2) <= elapsed < cum(ds, m2 + 1),
    ensures
        m1 == m2,
{
    if m1 < m2 {
        lemma_cum_monotonic(ds, m1 + 1, m2);
    }
    if m2 < m1 {
        lemma_cum_monotonic(ds, m2 + 1, m1);
    }
}

/// For step counts within the first cycle, the cumulative timeline is
/// the plain prefix sum of the duration list.
pub proof fn lemma_cum_is_prefix_sum(ds: Seq<u64>, m: nat)
    requires
        0 < ds.len(),
        m <= ds.len(),
    ensures
        cum(ds, m) == if m == 0 {
            0int
        } else {
            cum(ds, (m - 1) as nat) + ds[m - 1]
        },
{
    if m > 0 {
        lemma_small_mod((m - 1) as nat, ds.len());
        assert(((m - 1) as int) % (ds.len() as int) == m - 1);
    }
}

/// Frame-advance property: once a clock has caught up with an elapsed
/// time of `d₀ + … + d_k` plus a little — less than the next frame's
/// duration — the active frame index is exactly `(k + 1) mod N`.
/// (`cum(ds, k + 1)` is that sum of the first `k + 1` durations; see
/// [`lemma_cum_is_prefix_sum`].)
pub proof fn lemma_frame_index_after_elapsed(c: AnimationClock, now: u64, k: nat, eps: int)
    requires
        c.wf(),
        c.time_loaded matches Some(l) ==> {
            &&& cum(c.durations@, c.steps@) <= now - l
            &&& now < c.next_deadline
            &&& now - l == cum(c.durations@, k + 1) + eps
            &&& 0 <= eps < c.durations@[((k + 1) as int) % (c.durations@.len() as int)]
        },
        c.time_loaded is Some,
    ensures
        c.current_frame as nat == (k + 1) % c.frame_count(),
{
    let l = c.time_loaded->0;
    let elapsed = now - l;
    assert(cum(c.durations@, k + 2)
        == cum(c.durations@, k + 1)
            + c.durations@[((k + 1) as int) % (c.durations@.len() as int)]);
    assert(elapsed < cum(c.durations@, c.steps@ + 1));
    lemma_step_count_unique(c.durations@, c.steps@, (k + 1) as nat, elapsed);
}

/// The frame index never leaves `[0, N)`, whatever sequence of advances
/// the clock has seen.
pub proof fn lemma_frame_index_in_range(c: AnimationClock)
    requires
        c.wf(),
    ensures
        0 <= c.current_frame < c.frame_count(),
{
}

} // verus!
