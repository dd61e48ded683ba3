use vstd::prelude::*;

use crate::cluster::{ThinkingCluster, spec_complement, spec_threshold_source_for};
use crate::feedback::{
    AwarenessConfig,
    AwarenessLoopView,
    spec_next_thresholds,
    transitions,
    alternates,
    oscillation,
    last_index_of,
};
use crate::merge::{AwarenessState, merged_byte};
use crate::gate::{GateCheck, spec_classify_gate};
use crate::cluster::ThresholdSource;
use crate::feedback::FeedbackMode;

verus! {

/// Negative feedback never keeps the thresholds that the detected style
/// itself selects: the complement of every cluster selects another preset.
pub proof fn law_complement_switches_thresholds(c: ThinkingCluster)
    ensures
        spec_threshold_source_for(spec_complement(c)) != spec_threshold_source_for(c),
{
}

/// A window of `n` moments has at most `n - 1` transitions (none when it is
/// empty).
pub proof fn law_transitions_bounded(w: Seq<ThinkingCluster>)
    ensures
        transitions(w) <= (if w.len() == 0 {
            0
        } else {
            w.len() - 1
        }),
    decreases w.len(),
{
    if w.len() >= 2 {
        law_transitions_bounded(w.drop_last());
    }
}

proof fn lemma_alternating_transitions(w: Seq<ThinkingCluster>, a: ThinkingCluster, b: ThinkingCluster)
    requires
        a != b,
        w.len() >= 1,
        alternates(w, a, b),
    ensures
        transitions(w) == w.len() - 1,
    decreases w.len(),
{
    if w.len() >= 2 {
        let p = w.drop_last();
        assert forall|i: int| 0 <= i < p.len() implies #[trigger] p[i] == (if i % 2 == 0 {
            a
        } else {
            b
        }) by {
            assert(p[i] == w[i]);
        }
        lemma_alternating_transitions(p, a, b);
        let n = w.len() - 1;
        assert(w[n - 1] == (if (n - 1) % 2 == 0 {
            a
        } else {
            b
        }));
        assert(w[n] == (if n % 2 == 0 {
            a
        } else {
            b
        }));
    }
}

/// When the loop reports an oscillation over a window, every consecutive
/// pair of that window is a transition: the transition count over the same
/// window is its length minus one.
pub proof fn law_oscillation_is_all_transitions(v: AwarenessLoopView, last_n: nat)
    ensures
        oscillation(v.window(last_n)) is Some ==> transitions(v.window(last_n)) + 1 == v.window(
            last_n,
        ).len(),
{
    let w = v.window(last_n);
    if oscillation(w) is Some {
        lemma_alternating_transitions(w, w[0], w[1]);
    }
}

/// A cycle never lets the history outgrow its capacity.
pub proof fn law_cycle_keeps_history_bounded(
    v: AwarenessLoopView,
    detected: ThinkingCluster,
    reinforce: bool,
)
    requires
        v.wf(),
    ensures
        v.after_cycle(detected, reinforce).wf(),
{
}

/// Right after a cycle, the last moment in the detected cluster is the
/// newest one.
pub proof fn law_newest_moment_is_found(v: AwarenessLoopView, detected: ThinkingCluster, reinforce: bool)
    requires
        v.wf(),
    ensures
        ({
            let h = v.after_cycle(detected, reinforce).history;
            &&& h.len() >= 1
            &&& h.last() == detected
            &&& last_index_of(h, detected) == Some((h.len() - 1) as nat)
        }),
{
}

/// Style and thresholds change only on scans that update them.
pub proof fn law_thresholds_change_only_on_update(
    v: AwarenessLoopView,
    detected: ThinkingCluster,
    reinforce: bool,
)
    ensures
        !v.next_scan_updates() ==> v.after_cycle(detected, reinforce).thresholds == v.thresholds
            && v.after_cycle(detected, reinforce).current_style == v.current_style,
        v.next_scan_updates() ==> v.after_cycle(detected, reinforce).current_style == detected
            && v.after_cycle(detected, reinforce).thresholds == spec_next_thresholds(
            v.feedback_mode,
            detected,
            reinforce,
        ),
{
}

/// With an update interval of one, every scan adopts the detected style
/// (continuous drift).
pub proof fn law_unit_interval_updates_every_scan(
    v: AwarenessLoopView,
    detected: ThinkingCluster,
    reinforce: bool,
)
    requires
        v.style_update_interval == 1,
    ensures
        v.next_scan_updates(),
        v.after_cycle(detected, reinforce).current_style == detected,
        v.after_cycle(detected, reinforce).thresholds == spec_next_thresholds(
            v.feedback_mode,
            detected,
            reinforce,
        ),
{
}

/// The state after running the given cycles, in order, from `v`; each
/// input is the detected dominant cluster and whether it reinforces.
pub open spec fn run(v: AwarenessLoopView, inputs: Seq<(ThinkingCluster, bool)>) -> AwarenessLoopView
    decreases inputs.len(),
{
    if inputs.len() == 0 {
        v
    } else {
        run(v, inputs.drop_last()).after_cycle(inputs.last().0, inputs.last().1)
    }
}

/// The last `n` elements of `s` (all of `s` when shorter).
pub open spec fn latest(s: Seq<ThinkingCluster>, n: nat) -> Seq<ThinkingCluster> {
    if s.len() >= n {
        s.subrange(s.len() - n, s.len() as int)
    } else {
        s
    }
}

/// The detected clusters of a run's inputs.
pub open spec fn detected_of(inputs: Seq<(ThinkingCluster, bool)>) -> Seq<ThinkingCluster> {
    inputs.map_values(|x: (ThinkingCluster, bool)| x.0)
}

/// From a fresh loop, any run counts one scan per cycle and its history is
/// exactly the latest `max_history` detected clusters, oldest first.
pub proof fn law_history_keeps_latest_moments(
    config: AwarenessConfig,
    inputs: Seq<(ThinkingCluster, bool)>,
)
    ensures
        run(AwarenessLoopView::initial(config), inputs).scan_count == inputs.len(),
        run(AwarenessLoopView::initial(config), inputs).history == latest(
            detected_of(inputs),
            AwarenessLoopView::initial(config).max_history,
        ),
        run(AwarenessLoopView::initial(config), inputs).max_history == AwarenessLoopView::initial(
            config,
        ).max_history,
        run(AwarenessLoopView::initial(config), inputs).wf(),
    decreases inputs.len(),
{
    let v0 = AwarenessLoopView::initial(config);
    let m = v0.max_history;
    if inputs.len() == 0 {
        assert(latest(detected_of(inputs), m) =~= Seq::<ThinkingCluster>::empty());
    } else {
        let p = inputs.drop_last();
        law_history_keeps_latest_moments(config, p);
        let prev = run(v0, p);
        let d = inputs.last().0;
        let all = detected_of(inputs);
        let all_p = detected_of(p);
        assert(all_p =~= all.drop_last());
        assert(all.last() == d);
        let h = prev.history;
        let n = all.len();
        if h.len() >= m {
            assert(all_p.len() >= m);
            assert(h.drop_first().push(d) =~= all.subrange(n - m, n as int));
        } else {
            assert(all_p.len() < m);
            assert(h.push(d) =~= latest(all, m));
        }
    }
}

/// The selective merge does not depend on the order of the two deltas.
pub proof fn law_merge_symmetric(a: Seq<u8>, b: Seq<u8>, states: Seq<AwarenessState>, i: int)
    ensures
        merged_byte(a, b, states, i) == merged_byte(b, a, states, i),
{
    let x = a[i];
    let y = b[i];
    assert(x ^ y == y ^ x) by (bit_vector);
}

/// Merging a delta with itself changes nothing: every byte is zero.
pub proof fn law_merge_self_is_zero(a: Seq<u8>, states: Seq<AwarenessState>, i: int)
    ensures
        merged_byte(a, a, states, i) == 0,
{
    let x = a[i];
    assert(x ^ x == 0) by (bit_vector);
}

/// Byte `i` of a selective merge is zero when the dimension `i / 2` that
/// owns it is noise, and the XOR of the two deltas' bytes `i` otherwise.
pub proof fn law_merge_masks_owning_dimension(
    a: Seq<u8>,
    b: Seq<u8>,
    states: Seq<AwarenessState>,
    i: int,
)
    requires
        a.len() == b.len(),
        0 <= i < a.len(),
        a.len() <= 2 * states.len(),
    ensures
        states[i / 2] == AwarenessState::Noise ==> merged_byte(a, b, states, i) == 0,
        states[i / 2] != AwarenessState::Noise ==> merged_byte(a, b, states, i) == a[i] ^ b[i],
{
}

/// The collapse decision names the first comparison that fails, in the
/// order tension, sign consensus, exponent spread.
pub proof fn law_gate_names_first_failing_check(t: bool, c: bool, sp: bool)
    ensures
        t ==> spec_classify_gate(t, c, sp) == GateCheck::TensionBlock,
        !t && c ==> spec_classify_gate(t, c, sp) == GateCheck::ConsensusBlock,
        !t && !c && sp ==> spec_classify_gate(t, c, sp) == GateCheck::SpreadHold,
        !t && !c && !sp ==> spec_classify_gate(t, c, sp) == GateCheck::Clear,
{
}

/// The preset each cluster selects, and each cluster's complement.
pub proof fn law_cluster_tables(c: ThinkingCluster)
    ensures
        c == ThinkingCluster::Convergent ==> spec_threshold_source_for(c)
            == ThresholdSource::Analytical && spec_complement(c) == ThinkingCluster::Divergent,
        c == ThinkingCluster::Divergent ==> spec_threshold_source_for(c) == ThresholdSource::Explorer
            && spec_complement(c) == ThinkingCluster::Convergent,
        c == ThinkingCluster::Dialectical ==> spec_threshold_source_for(c)
            == ThresholdSource::Dialectical && spec_complement(c) == ThinkingCluster::Receptive,
        c == ThinkingCluster::Receptive ==> spec_threshold_source_for(c) == ThresholdSource::Standard
            && spec_complement(c) == ThinkingCluster::Dialectical,
        c == ThinkingCluster::Committed ==> spec_threshold_source_for(c)
            == ThresholdSource::Analytical && spec_complement(c) == ThinkingCluster::Divergent,
{
}

/// Thresholds chosen on an updating scan: positive feedback takes the
/// detected cluster's preset and negative feedback its complement's, both
/// whatever the bias; adaptive feedback takes the detected preset when the
/// bias is positive and the configured set otherwise.
pub proof fn law_feedback_selects_thresholds(c: ThinkingCluster, reinforce: bool)
    ensures
        spec_next_thresholds(FeedbackMode::Positive, c, reinforce) == spec_next_thresholds(
            FeedbackMode::Positive,
            c,
            !reinforce,
        ),
        spec_next_thresholds(FeedbackMode::Negative, c, reinforce) == spec_next_thresholds(
            FeedbackMode::Negative,
            c,
            !reinforce,
        ),
        spec_next_thresholds(FeedbackMode::Negative, c, reinforce) == spec_next_thresholds(
            FeedbackMode::Positive,
            spec_complement(c),
            reinforce,
        ),
        spec_next_thresholds(FeedbackMode::Adaptive, c, true) == spec_next_thresholds(
            FeedbackMode::Positive,
            c,
            reinforce,
        ),
        spec_next_thresholds(FeedbackMode::Adaptive, c, false) == ThresholdSource::Configured,
        c == ThinkingCluster::Convergent ==> spec_next_thresholds(FeedbackMode::Negative, c, reinforce)
            == ThresholdSource::Explorer && spec_next_thresholds(FeedbackMode::Positive, c, reinforce)
            == ThresholdSource::Analytical,
        c == ThinkingCluster::Divergent ==> spec_next_thresholds(FeedbackMode::Negative, c, reinforce)
            == ThresholdSource::Analytical && spec_next_thresholds(FeedbackMode::Positive, c, reinforce)
            == ThresholdSource::Explorer,
        c == ThinkingCluster::Dialectical ==> spec_next_thresholds(FeedbackMode::Negative, c, reinforce)
            == ThresholdSource::Standard && spec_next_thresholds(FeedbackMode::Positive, c, reinforce)
            == ThresholdSource::Dialectical,
        c == ThinkingCluster::Receptive ==> spec_next_thresholds(FeedbackMode::Negative, c, reinforce)
            == ThresholdSource::Dialectical && spec_next_thresholds(FeedbackMode::Positive, c, reinforce)
            == ThresholdSource::Standard,
        c == ThinkingCluster::Committed ==> spec_next_thresholds(FeedbackMode::Negative, c, reinforce)
            == ThresholdSource::Explorer && spec_next_thresholds(FeedbackMode::Positive, c, reinforce)
            == ThresholdSource::Analytical,
{
}

/// Fewer than two moments hold no transition; appending a moment adds one
/// transition exactly when it differs from the last moment.
pub proof fn law_transitions_step(w: Seq<ThinkingCluster>, x: ThinkingCluster)
    ensures
        w.len() < 2 ==> transitions(w) == 0,
        w.len() >= 1 ==> transitions(w.push(x)) == transitions(w) + (if w.last() != x {
            1int
        } else {
            0int
        }),
{
    if w.len() >= 1 {
        assert(w.push(x).drop_last() =~= w);
    }
}

/// An oscillation is reported exactly for windows of at least four moments
/// whose first two clusters differ and that alternate between them, and is
/// reported as those two clusters with cycle length 2.
pub proof fn law_oscillation_exact(w: Seq<ThinkingCluster>)
    ensures
        (w.len() >= 4 && w[0] != w[1] && forall|i: int|
            0 <= i < w.len() ==> #[trigger] w[i] == (if i % 2 == 0 {
                w[0]
            } else {
                w[1]
            })) ==> oscillation(w) == Some((w[0], w[1], 2usize)),
        oscillation(w) matches Some((a, b, k)) ==> {
            &&& w.len() >= 4
            &&& a == w[0]
            &&& b == w[1]
            &&& a != b
            &&& k == 2
            &&& forall|i: int|
                0 <= i < w.len() ==> #[trigger] w[i] == (if i % 2 == 0 {
                    a
                } else {
                    b
                })
        },
        !(w.len() >= 4 && w[0] != w[1] && forall|i: int|
            0 <= i < w.len() ==> #[trigger] w[i] == (if i % 2 == 0 {
                w[0]
            } else {
                w[1]
            })) ==> oscillation(w) is None,
{
}

/// The window of the last `n` moments is the history's suffix of length
/// `min(n, history length)`.
pub proof fn law_window_is_latest_suffix(v: AwarenessLoopView, n: nat)
    ensures
        v.window(n).len() == (if v.history.len() < n {
            v.history.len()
        } else {
            n
        }),
        forall|i: int|
            0 <= i < v.window(n).len() ==> #[trigger] v.window(n)[i] == v.history[v.history.len()
                - v.window(n).len() + i],
{
}

/// A cycle counts one scan, updates exactly on multiples of the interval,
/// and stores the detected cluster as the newest moment, dropping the
/// oldest only when the history is full.
pub proof fn law_cycle_effect(v: AwarenessLoopView, detected: ThinkingCluster, reinforce: bool)
    requires
        v.wf(),
    ensures
        ({
            let n = v.after_cycle(detected, reinforce);
            &&& n.scan_count == v.scan_count + 1
            &&& v.next_scan_updates() == ((v.scan_count + 1) % v.style_update_interval == 0)
            &&& v.history.len() < v.max_history ==> n.history == v.history.push(detected)
            &&& v.history.len() >= v.max_history ==> n.history == v.history.subrange(
                1,
                v.history.len() as int,
            ).push(detected)
        }),
{
    assert(v.history.drop_first() =~= v.history.subrange(1, v.history.len() as int));
}

} // verus!
