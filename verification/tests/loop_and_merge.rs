use cubus::{
    classify_gate, complement, selective_merge, threshold_source_for, AwarenessConfig,
    AwarenessLoop, AwarenessState, Decomposition, EnrichedGate, FeedbackMode, GateCheck,
    ThinkingCluster, ThresholdSource,
};

fn config(interval: usize, mode: FeedbackMode) -> AwarenessConfig {
    AwarenessConfig { style_update_interval: interval, feedback_mode: mode }
}

#[test]
fn threshold_source_per_cluster() {
    assert_eq!(threshold_source_for(ThinkingCluster::Convergent), ThresholdSource::Analytical);
    assert_eq!(threshold_source_for(ThinkingCluster::Committed), ThresholdSource::Analytical);
    assert_eq!(threshold_source_for(ThinkingCluster::Divergent), ThresholdSource::Explorer);
    assert_eq!(threshold_source_for(ThinkingCluster::Dialectical), ThresholdSource::Dialectical);
    assert_eq!(threshold_source_for(ThinkingCluster::Receptive), ThresholdSource::Standard);
}

#[test]
fn complement_of_each_cluster() {
    assert_eq!(complement(ThinkingCluster::Convergent), ThinkingCluster::Divergent);
    assert_eq!(complement(ThinkingCluster::Divergent), ThinkingCluster::Convergent);
    assert_eq!(complement(ThinkingCluster::Dialectical), ThinkingCluster::Receptive);
    assert_eq!(complement(ThinkingCluster::Receptive), ThinkingCluster::Dialectical);
    assert_eq!(complement(ThinkingCluster::Committed), ThinkingCluster::Divergent);
}

#[test]
fn complement_selects_other_thresholds() {
    let all = [
        ThinkingCluster::Convergent,
        ThinkingCluster::Divergent,
        ThinkingCluster::Dialectical,
        ThinkingCluster::Receptive,
        ThinkingCluster::Committed,
    ];
    for c in all {
        assert_ne!(complement(c), c);
        assert_ne!(threshold_source_for(complement(c)), threshold_source_for(c));
    }
}

#[test]
fn gate_tension_blocks_first() {
    let r = classify_gate(true, false, true);
    assert_eq!(r, GateCheck::TensionBlock);
    assert_eq!(r.gate(), EnrichedGate::Block);
    assert_eq!(classify_gate(true, true, true), GateCheck::TensionBlock);
}

#[test]
fn gate_low_consensus_blocks() {
    let r = classify_gate(false, true, true);
    assert_eq!(r, GateCheck::ConsensusBlock);
    assert_eq!(r.gate(), EnrichedGate::Block);
}

#[test]
fn gate_wide_spread_holds() {
    let r = classify_gate(false, false, true);
    assert_eq!(r, GateCheck::SpreadHold);
    assert_eq!(r.gate(), EnrichedGate::Hold);
}

#[test]
fn gate_clear_flows() {
    let r = classify_gate(false, false, false);
    assert_eq!(r, GateCheck::Clear);
    assert_eq!(r.gate(), EnrichedGate::Flow);
}

#[test]
fn merge_masks_noise_dimensions() {
    let state = Decomposition {
        n_dims: 3,
        states: vec![AwarenessState::Noise, AwarenessState::Tensioned, AwarenessState::Noise],
    };
    let a = vec![0xFFu8, 0xFF, 0xF0, 0x0F, 0x12, 0x34];
    let b = vec![0x00u8, 0x00, 0x0F, 0x0F, 0x56, 0x78];
    let merged = selective_merge(&a, &b, &state);
    assert_eq!(merged, vec![0, 0, 0xFF, 0x00, 0, 0]);
}

#[test]
fn merge_xors_significant_dimensions() {
    let state = Decomposition {
        n_dims: 2,
        states: vec![AwarenessState::Crystallized, AwarenessState::Uncertain],
    };
    let a = vec![0xAAu8, 0x01, 0x80, 0x7F];
    let b = vec![0x55u8, 0x01, 0x01, 0x7F];
    assert_eq!(selective_merge(&a, &b, &state), vec![0xFF, 0x00, 0x81, 0x00]);
    assert_eq!(selective_merge(&b, &a, &state), vec![0xFF, 0x00, 0x81, 0x00]);
    assert_eq!(selective_merge(&a, &a, &state), vec![0, 0, 0, 0]);
}

#[test]
fn merge_of_no_dimensions_is_empty() {
    let state = Decomposition { n_dims: 0, states: vec![] };
    assert_eq!(selective_merge(&[], &[], &state), Vec::<u8>::new());
}

#[test]
fn loop_starts_fresh() {
    let l = AwarenessLoop::new(AwarenessConfig::default());
    assert_eq!(l.scan_count(), 0);
    assert_eq!(l.style(), ThinkingCluster::Convergent);
    assert_eq!(l.thresholds(), ThresholdSource::Configured);
    assert_eq!(l.history_len(), 0);
    assert_eq!(l.transition_count(4), 0);
    assert_eq!(l.detect_oscillation(4), None);
    assert_eq!(l.last_in_cluster(ThinkingCluster::Convergent), None);
}

#[test]
fn default_config_is_adaptive_every_scan() {
    let c = AwarenessConfig::default();
    assert_eq!(c.style_update_interval, 1);
    assert_eq!(c.feedback_mode, FeedbackMode::Adaptive);
}

#[test]
fn loop_basic_cycle_counts_and_reinforces() {
    let mut l = AwarenessLoop::new(AwarenessConfig::default());
    let step = l.cycle(ThinkingCluster::Committed, true);
    assert!(step.style_updated);
    assert!(!step.evicted_oldest);
    assert_eq!(step.thresholds, ThresholdSource::Analytical);
    assert_eq!(l.scan_count(), 1);
    assert_eq!(l.style(), ThinkingCluster::Committed);
    assert_eq!(l.history_len(), 1);
}

#[test]
fn adaptive_without_confidence_uses_configured() {
    let mut l = AwarenessLoop::new(config(1, FeedbackMode::Adaptive));
    let step = l.cycle(ThinkingCluster::Divergent, false);
    assert!(step.style_updated);
    assert_eq!(step.thresholds, ThresholdSource::Configured);
    assert_eq!(l.style(), ThinkingCluster::Divergent);
}

#[test]
fn positive_feedback_follows_detected_style() {
    let mut l = AwarenessLoop::new(config(1, FeedbackMode::Positive));
    assert_eq!(l.cycle(ThinkingCluster::Divergent, false).thresholds, ThresholdSource::Explorer);
    assert_eq!(l.cycle(ThinkingCluster::Receptive, false).thresholds, ThresholdSource::Standard);
}

#[test]
fn negative_feedback_uses_complement() {
    let mut l = AwarenessLoop::new(config(1, FeedbackMode::Negative));
    assert_eq!(l.cycle(ThinkingCluster::Convergent, true).thresholds, ThresholdSource::Explorer);
    assert_eq!(l.cycle(ThinkingCluster::Dialectical, true).thresholds, ThresholdSource::Standard);
    assert_eq!(l.cycle(ThinkingCluster::Receptive, true).thresholds, ThresholdSource::Dialectical);
    assert_eq!(l.style(), ThinkingCluster::Receptive);
}

#[test]
fn interval_updates_only_on_multiples() {
    let mut l = AwarenessLoop::new(config(3, FeedbackMode::Positive));
    let s1 = l.cycle(ThinkingCluster::Divergent, true);
    assert!(!s1.style_updated);
    assert_eq!(s1.thresholds, ThresholdSource::Configured);
    assert_eq!(l.style(), ThinkingCluster::Convergent);
    let s2 = l.cycle(ThinkingCluster::Divergent, true);
    assert!(!s2.style_updated);
    let s3 = l.cycle(ThinkingCluster::Dialectical, true);
    assert!(s3.style_updated);
    assert_eq!(s3.thresholds, ThresholdSource::Dialectical);
    assert_eq!(l.style(), ThinkingCluster::Dialectical);
    assert_eq!(l.scan_count(), 3);
    assert_eq!(l.history_len(), 3);
}

#[test]
fn alternating_moments_count_transitions() {
    let mut l = AwarenessLoop::new(AwarenessConfig::default());
    l.cycle(ThinkingCluster::Committed, true);
    l.cycle(ThinkingCluster::Dialectical, true);
    l.cycle(ThinkingCluster::Committed, true);
    l.cycle(ThinkingCluster::Dialectical, true);
    assert_eq!(l.transition_count(4), 3);
    assert_eq!(l.transition_count(2), 1);
    assert_eq!(l.transition_count(1), 0);
    assert_eq!(l.transition_count(0), 0);
    assert_eq!(l.transition_count(100), 3);
}

#[test]
fn oscillation_detected_over_alternation() {
    let mut l = AwarenessLoop::new(AwarenessConfig::default());
    l.cycle(ThinkingCluster::Committed, true);
    l.cycle(ThinkingCluster::Dialectical, true);
    l.cycle(ThinkingCluster::Committed, true);
    assert_eq!(l.detect_oscillation(10), None);
    l.cycle(ThinkingCluster::Dialectical, true);
    assert_eq!(
        l.detect_oscillation(10),
        Some((ThinkingCluster::Committed, ThinkingCluster::Dialectical, 2))
    );
    assert_eq!(l.detect_oscillation(3), None);
    l.cycle(ThinkingCluster::Committed, true);
    assert_eq!(
        l.detect_oscillation(4),
        Some((ThinkingCluster::Dialectical, ThinkingCluster::Committed, 2))
    );
    assert_eq!(l.transition_count(4) + 1, 4);
}

#[test]
fn oscillation_needs_distinct_alternating_clusters() {
    let mut same = AwarenessLoop::new(AwarenessConfig::default());
    for _ in 0..5 {
        same.cycle(ThinkingCluster::Receptive, false);
    }
    assert_eq!(same.detect_oscillation(5), None);
    assert_eq!(same.transition_count(5), 0);

    let mut broken = AwarenessLoop::new(AwarenessConfig::default());
    broken.cycle(ThinkingCluster::Convergent, true);
    broken.cycle(ThinkingCluster::Divergent, true);
    broken.cycle(ThinkingCluster::Convergent, true);
    broken.cycle(ThinkingCluster::Receptive, true);
    assert_eq!(broken.detect_oscillation(4), None);
}

#[test]
fn last_in_cluster_finds_latest_position() {
    let mut l = AwarenessLoop::new(AwarenessConfig::default());
    l.cycle(ThinkingCluster::Divergent, true);
    l.cycle(ThinkingCluster::Receptive, true);
    l.cycle(ThinkingCluster::Divergent, true);
    l.cycle(ThinkingCluster::Convergent, true);
    assert_eq!(l.last_in_cluster(ThinkingCluster::Divergent), Some(2));
    assert_eq!(l.last_in_cluster(ThinkingCluster::Receptive), Some(1));
    assert_eq!(l.last_in_cluster(ThinkingCluster::Convergent), Some(3));
    assert_eq!(l.last_in_cluster(ThinkingCluster::Committed), None);
}

#[test]
fn history_keeps_latest_thousand_moments() {
    let mut l = AwarenessLoop::new(AwarenessConfig::default());
    l.cycle(ThinkingCluster::Committed, true);
    for _ in 0..999 {
        let step = l.cycle(ThinkingCluster::Receptive, false);
        assert!(!step.evicted_oldest);
    }
    assert_eq!(l.history_len(), 1000);
    assert_eq!(l.last_in_cluster(ThinkingCluster::Committed), Some(0));
    let step = l.cycle(ThinkingCluster::Receptive, false);
    assert!(step.evicted_oldest);
    assert_eq!(l.history_len(), 1000);
    assert_eq!(l.last_in_cluster(ThinkingCluster::Committed), None);
    assert_eq!(l.scan_count(), 1001);
    assert_eq!(l.last_in_cluster(ThinkingCluster::Receptive), Some(999));
}
