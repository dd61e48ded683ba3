use vstd::prelude::*;

use crate::cluster::{
    ThinkingCluster,
    ThresholdSource,
    complement,
    threshold_source_for,
    spec_complement,
    spec_threshold_source_for,
};

verus! {

/// How the detected style feeds back into the collapse thresholds.
#[derive(Clone, Copy, Debug, PartialEq, Eq, Structural)]
pub enum FeedbackMode {
    /// The detected style reinforces itself.
    Positive,
    /// The detected style switches to the thresholds of its complement.
    Negative,
    /// Reinforce when the detection is confident, else fall back to the
    /// configured thresholds.
    Adaptive,
}

/// Configuration of the awareness loop's bookkeeping.
#[derive(Clone, Copy, Debug)]
pub struct AwarenessConfig {
    /// Update the style every this many scans (1: every scan).
    pub style_update_interval: usize,
    /// How the detected style selects the next thresholds.
    pub feedback_mode: FeedbackMode,
}

impl Default for AwarenessConfig {
    fn default() -> (r: Self)
        ensures
            r.style_update_interval == 1,
            r.feedback_mode == FeedbackMode::Adaptive,
    {
        AwarenessConfig { style_update_interval: 1, feedback_mode: FeedbackMode::Adaptive }
    }
}

/// The mathematical state of an awareness loop.
pub struct AwarenessLoopView {
    pub style_update_interval: nat,
    pub feedback_mode: FeedbackMode,
    /// Dominant cluster of the current style.
    pub current_style: ThinkingCluster,
    /// Thresholds currently in force.
    pub thresholds: ThresholdSource,
    /// Scans processed so far.
    pub scan_count: nat,
    /// Dominant cluster of each stored moment, oldest first.
    pub history: Seq<ThinkingCluster>,
    /// How many moments the history keeps.
    pub max_history: nat,
}

/// Thresholds selected when a style update happens.
///
/// `reinforce` says whether the detected style's feedback bias is positive;
/// only the adaptive mode reads it.
pub open spec fn spec_next_thresholds(
    mode: FeedbackMode,
    detected: ThinkingCluster,
    reinforce: bool,
) -> ThresholdSource {
    match mode {
        FeedbackMode::Positive => spec_threshold_source_for(detected),
        FeedbackMode::Negative => spec_threshold_source_for(spec_complement(detected)),
        FeedbackMode::Adaptive => if reinforce {
            spec_threshold_source_for(detected)
        } else {
            ThresholdSource::Configured
        },
    }
}

/// Number of adjacent pairs of `w` whose clusters differ.
pub open spec fn transitions(w: Seq<ThinkingCluster>) -> nat
    decreases w.len(),
{
    if w.len() < 2 {
        0
    } else {
        transitions(w.drop_last()) + if w[w.len() - 2] != w[w.len() - 1] {
            1nat
        } else {
            0nat
        }
    }
}

/// `w` reads `a, b, a, b, ...` from its start.
pub open spec fn alternates(w: Seq<ThinkingCluster>, a: ThinkingCluster, b: ThinkingCluster) -> bool {
    forall|i: int|
        0 <= i < w.len() ==> #[trigger] w[i] == (if i % 2 == 0 {
            a
        } else {
            b
        })
}

/// The oscillation reported for a window: two distinct clusters that
/// alternate over a window of at least four moments, with cycle length 2.
pub open spec fn oscillation(w: Seq<ThinkingCluster>) -> Option<
    (ThinkingCluster, ThinkingCluster, usize),
> {
    if w.len() >= 4 && w[0] != w[1] && alternates(w, w[0], w[1]) {
        Some((w[0], w[1], 2usize))
    } else {
        None
    }
}

/// Index of the last occurrence of `c` in `h`.
pub open spec fn last_index_of(h: Seq<ThinkingCluster>, c: ThinkingCluster) -> Option<nat>
    decreases h.len(),
{
    if h.len() == 0 {
        None
    } else if h.last() == c {
        Some((h.len() - 1) as nat)
    } else {
        last_index_of(h.drop_last(), c)
    }
}

impl AwarenessLoopView {
    /// The loop's state invariant: the history never outgrows its capacity.
    pub open spec fn wf(self) -> bool {
        &&& 0 < self.max_history
        &&& self.history.len() <= self.max_history
    }

    /// The state of a freshly created loop.
    pub open spec fn initial(config: AwarenessConfig) -> AwarenessLoopView {
        AwarenessLoopView {
            style_update_interval: config.style_update_interval as nat,
            feedback_mode: config.feedback_mode,
            current_style: ThinkingCluster::Convergent,
            thresholds: ThresholdSource::Configured,
            scan_count: 0,
            history: Seq::empty(),
            max_history: 1000,
        }
    }

    /// Whether the next scan updates the style and thresholds.
    pub open spec fn next_scan_updates(self) -> bool {
        (self.scan_count + 1) % self.style_update_interval == 0
    }

    /// The history after storing one more moment: the oldest moment leaves
    /// when the history is full.
    pub open spec fn history_after(self, detected: ThinkingCluster) -> Seq<ThinkingCluster> {
        if self.history.len() >= self.max_history {
            self.history.drop_first().push(detected)
        } else {
            self.history.push(detected)
        }
    }

    /// The state after one cycle whose detected dominant cluster is
    /// `detected`.
    pub open spec fn after_cycle(self, detected: ThinkingCluster, reinforce: bool) -> AwarenessLoopView {
        let update = self.next_scan_updates();
        AwarenessLoopView {
            style_update_interval: self.style_update_interval,
            feedback_mode: self.feedback_mode,
            current_style: if update {
                detected
            } else {
                self.current_style
            },
            thresholds: if update {
                spec_next_thresholds(self.feedback_mode, detected, reinforce)
            } else {
                self.thresholds
            },
            scan_count: self.scan_count + 1,
            history: self.history_after(detected),
            max_history: self.max_history,
        }
    }

    /// The last `last_n` moments of the history (all of it when shorter).
    pub open spec fn window(self, last_n: nat) -> Seq<ThinkingCluster> {
        if self.history.len() >= last_n {
            self.history.subrange(self.history.len() - last_n, self.history.len() as int)
        } else {
            self.history
        }
    }
}

/// What one cycle of the loop did.
#[derive(Clone, Copy, Debug)]
pub struct CycleStep {
    /// The style and thresholds were updated on this scan.
    pub style_updated: bool,
    /// Thresholds in force after the cycle.
    pub thresholds: ThresholdSource,
    /// The oldest stored moment was dropped to make room.
    pub evicted_oldest: bool,
}

/// The continuous awareness loop's state: scan counter, current style and
/// thresholds, and a bounded history of the dominant cluster of each moment.
pub struct AwarenessLoop {
    config: AwarenessConfig,
    current_style: ThinkingCluster,
    current_thresholds: ThresholdSource,
    scan_count: u64,
    history: Vec<ThinkingCluster>,
    max_history: usize,
}

impl View for AwarenessLoop {
    type V = AwarenessLoopView;

    closed spec fn view(&self) -> AwarenessLoopView {
        AwarenessLoopView {
            style_update_interval: self.config.style_update_interval as nat,
            feedback_mode: self.config.feedback_mode,
            current_style: self.current_style,
            thresholds: self.current_thresholds,
            scan_count: self.scan_count as nat,
            history: self.history@,
            max_history: self.max_history as nat,
        }
    }
}

impl AwarenessLoop {
    /// A loop with no scans yet: convergent style, the configured
    /// thresholds, an empty history keeping up to 1000 moments.
    pub fn new(config: AwarenessConfig) -> (r: Self)
        ensures
            r@ == AwarenessLoopView::initial(config),
            r@.wf(),
            r@.style_update_interval == config.style_update_interval,
            r@.feedback_mode == config.feedback_mode,
            r@.current_style == ThinkingCluster::Convergent,
            r@.thresholds == ThresholdSource::Configured,
            r@.scan_count == 0,
            r@.history.len() == 0,
            r@.max_history == 1000,
    {
        AwarenessLoop {
            config,
            current_style: ThinkingCluster::Convergent,
            current_thresholds: ThresholdSource::Configured,
            scan_count: 0,
            history: Vec::new(),
            max_history: 1000,
        }
    }

    /// Processes one cycle: counts the scan; on every
    /// `style_update_interval`-th scan adopts `detected` as the current style
    /// and selects the thresholds by the feedback mode; stores the moment,
    /// dropping the oldest when the history is full.
    ///
    /// `detected` is the dominant cluster detected on this scan; `reinforce`
    /// says whether its feedback bias is positive.
    pub fn cycle(&mut self, detected: ThinkingCluster, reinforce: bool) -> (step: CycleStep)
        requires
            old(self)@.wf(),
            old(self)@.style_update_interval > 0,
            old(self)@.scan_count < u64::MAX,
        ensures
            final(self)@ == old(self)@.after_cycle(detected, reinforce),
            final(self)@.wf(),
            step.style_updated == old(self)@.next_scan_updates(),
            step.thresholds == final(self)@.thresholds,
            step.evicted_oldest == (old(self)@.history.len() >= old(self)@.max_history),
            final(self)@.scan_count == old(self)@.scan_count + 1,
            final(self)@.style_update_interval == old(self)@.style_update_interval,
            final(self)@.feedback_mode == old(self)@.feedback_mode,
            final(self)@.max_history == old(self)@.max_history,
            step.style_updated == ((old(self)@.scan_count + 1) % old(self)@.style_update_interval
                == 0),
            step.style_updated ==> final(self)@.current_style == detected,
            !step.style_updated ==> final(self)@.current_style == old(self)@.current_style
                && final(self)@.thresholds == old(self)@.thresholds,
            step.style_updated && old(self)@.feedback_mode == FeedbackMode::Positive ==> final(self)@.thresholds == spec_threshold_source_for(detected),
            step.style_updated && old(self)@.feedback_mode == FeedbackMode::Negative ==> final(self)@.thresholds == spec_threshold_source_for(spec_complement(detected)),
            step.style_updated && old(self)@.feedback_mode == FeedbackMode::Adaptive && reinforce
                ==> final(self)@.thresholds == spec_threshold_source_for(detected),
            step.style_updated && old(self)@.feedback_mode == FeedbackMode::Adaptive && !reinforce
                ==> final(self)@.thresholds == ThresholdSource::Configured,
            old(self)@.history.len() < old(self)@.max_history ==> final(self)@.history == old(self)@.history.push(detected),
            old(self)@.history.len() >= old(self)@.max_history ==> final(self)@.history == old(self)@.history.subrange(1, old(self)@.history.len() as int).push(detected),
    {
        self.scan_count = self.scan_count + 1;
        let interval = self.config.style_update_interval as u64;
        let updated = self.scan_count % interval == 0;
        if updated {
            self.current_style = detected;
            self.current_thresholds = match self.config.feedback_mode {
                FeedbackMode::Positive => threshold_source_for(detected),
                FeedbackMode::Negative => threshold_source_for(complement(detected)),
                FeedbackMode::Adaptive => {
                    if reinforce {
                        threshold_source_for(detected)
                    } else {
                        ThresholdSource::Configured
                    }
                },
            };
        }
        let evicted = self.history.len() >= self.max_history;
        if evicted {
            self.history.remove(0);
        }
        self.history.push(detected);
        proof {
            if evicted {
                assert(old(self)@.history.remove(0) =~= old(self)@.history.drop_first());
            }
            assert(self@.history =~= old(self)@.history_after(detected));
        }
        CycleStep { style_updated: updated, thresholds: self.current_thresholds, evicted_oldest: evicted }
    }

    /// Dominant cluster of the current style.
    pub fn style(&self) -> (r: ThinkingCluster)
        ensures
            r == self@.current_style,
    {
        self.current_style
    }

    /// Thresholds currently in force.
    pub fn thresholds(&self) -> (r: ThresholdSource)
        ensures
            r == self@.thresholds,
    {
        self.current_thresholds
    }

    /// Total scans processed.
    pub fn scan_count(&self) -> (r: u64)
        ensures
            r == self@.scan_count,
    {
        self.scan_count
    }

    /// Number of moments stored.
    pub fn history_len(&self) -> (r: usize)
        ensures
            r == self@.history.len(),
    {
        self.history.len()
    }
    /// Position in the history where the window of the last `last_n`
    /// moments starts.
    fn window_start(&self, last_n: usize) -> (start: usize)
        ensures
            start <= self@.history.len(),
            self@.window(last_n as nat) =~= self@.history.subrange(
                start as int,
                self@.history.len() as int,
            ),
    {
        self.history.len().saturating_sub(last_n)
    }

    /// Counts transitions between clusters in the last `last_n` moments: a
    /// transition is a pair of consecutive moments with different dominant
    /// clusters.
    pub fn transition_count(&self, last_n: usize) -> (r: usize)
        ensures
            r == transitions(self@.window(last_n as nat)),
    {
        let len = self.history.len();
        let start = self.window_start(last_n);
        let ghost h = self@.history;
        if start == len {
            assert(h.subrange(start as int, len as int).len() == 0);
            return 0;
        }
        let mut count: usize = 0;
        let mut j: usize = start + 1;
        assert(h.subrange(start as int, j as int).len() == 1);
        while j < len
            invariant
                h == self@.history,
                len == h.len(),
                start < j <= len,
                count <= j - start,
                count == transitions(h.subrange(start as int, j as int)),
            decreases len - j,
        {
            let ghost prev = h.subrange(start as int, j as int);
            let ghost next = h.subrange(start as int, j + 1);
            assert(next.drop_last() =~= prev);
            assert(next[next.len() - 2] == h[j - 1]);
            assert(next[next.len() - 1] == h[j as int]);
            if self.history[j - 1] != self.history[j] {
                count = count + 1;
            }
            j = j + 1;
        }
        count
    }

    /// Detects a meta-pattern in the last `last_n` moments: two distinct
    /// clusters alternating (A-B-A-B...) over a window of at least four
    /// moments, reported as `(a, b, 2)`.
    pub fn detect_oscillation(&self, last_n: usize) -> (r: Option<(ThinkingCluster, ThinkingCluster, usize)>)
        ensures
            r == oscillation(self@.window(last_n as nat)),
            ({
                let w = self@.window(last_n as nat);
                &&& (w.len() >= 4 && w[0] != w[1] && forall|i: int|
                    0 <= i < w.len() ==> #[trigger] w[i] == (if i % 2 == 0 {
                        w[0]
                    } else {
                        w[1]
                    })) ==> r == Some((w[0], w[1], 2usize))
                &&& r matches Some((a, b, k)) ==> {
                    &&& w.len() >= 4
                    &&& a == w[0]
                    &&& b == w[1]
                    &&& a != b
                    &&& k == 2
                    &&& forall|i: int|
                        0 <= i < w.len() ==> #[trigger] w[i] == (if i % 2 == 0 {
                            w[0]
                        } else {
                            w[1]
                        })
                }
            }),
    {
        let len = self.history.len();
        let start = self.window_start(last_n);
        let ghost w = self@.window(last_n as nat);
        if len - start < 4 {
            return None;
        }
        let first = self.history[start];
        let second = self.history[start + 1];
        assert(w =~= self@.history.subrange(start as int, len as int));
        assert(w[0] == first && w[1] == second);
        if first == second {
            return None;
        }
        let mut i: usize = 0;
        while i < len - start
            invariant
                w == self@.window(last_n as nat),
                w == self@.history.subrange(start as int, len as int),
                len == self@.history.len(),
                start + 4 <= len,
                first == w[0],
                second == w[1],
                i <= len - start,
                forall|k: int|
                    0 <= k < i ==> #[trigger] w[k] == (if k % 2 == 0 {
                        first
                    } else {
                        second
                    }),
            decreases len - start - i,
        {
            let expected = if i % 2 == 0 {
                first
            } else {
                second
            };
            if self.history[start + i] != expected {
                assert(w[i as int] == self@.history[start + i]);
                assert(!alternates(w, first, second));
                return None;
            }
            i = i + 1;
        }
        assert(alternates(w, first, second));
        Some((first, second, 2))
    }

    /// Position in the history of the last moment whose dominant cluster is
    /// `cluster`, if any.
    pub fn last_in_cluster(&self, cluster: ThinkingCluster) -> (r: Option<usize>)
        ensures
            match r {
                Some(i) => last_index_of(self@.history, cluster) == Some(i as nat),
                None => last_index_of(self@.history, cluster) == None::<nat>,
            },
            match r {
                Some(i) => {
                    &&& i < self@.history.len()
                    &&& self@.history[i as int] == cluster
                    &&& forall|j: int| i < j < self@.history.len() ==> self@.history[j] != cluster
                },
                None => forall|j: int| 0 <= j < self@.history.len() ==> self@.history[j] != cluster,
            },
    {
        let ghost h = self@.history;
        let mut k: usize = self.history.len();
        assert(h.take(k as int) =~= h);
        while k > 0
            invariant
                h == self@.history,
                k <= h.len(),
                forall|j: int| k <= j < h.len() ==> h[j] != cluster,
                last_index_of(h, cluster) == last_index_of(h.take(k as int), cluster),
            decreases k,
        {
            let ghost t = h.take(k as int);
            assert(t.drop_last() =~= h.take(k - 1));
            if self.history[k - 1] == cluster {
                return Some(k - 1);
            }
            k = k - 1;
        }
        assert(h.take(0) =~= Seq::<ThinkingCluster>::empty());
        None
    }
}

} // verus!
