//! Thinking-style bookkeeping over a per-dimension state decomposition.
//!
//! The library holds the discrete part of the awareness substrate: the
//! cluster vocabulary and the threshold profile each cluster selects, the
//! ordering of the collapse-gate checks, the noise-masking merge of byte
//! deltas, and the awareness loop's state machine (scan counting, style
//! updates, bounded history and the queries over it).

mod cluster;
mod gate;
mod merge;
mod feedback;
mod laws;

pub use cluster::{
    ThinkingCluster,
    ThresholdSource,
    complement,
    threshold_source_for,
    spec_complement,
    spec_threshold_source_for,
};
pub use gate::{EnrichedGate, GateCheck, classify_gate, spec_classify_gate};
pub use merge::{AwarenessState, Decomposition, merged_byte, selective_merge};
pub use feedback::{
    FeedbackMode,
    AwarenessConfig,
    AwarenessLoop,
    AwarenessLoopView,
    CycleStep,
    spec_next_thresholds,
    transitions,
    alternates,
    oscillation,
    last_index_of,
};
pub use laws::{
    law_complement_switches_thresholds,
    law_transitions_bounded,
    law_oscillation_is_all_transitions,
    law_cycle_keeps_history_bounded,
    law_newest_moment_is_found,
    law_thresholds_change_only_on_update,
    law_unit_interval_updates_every_scan,
    law_history_keeps_latest_moments,
    law_merge_symmetric,
    law_merge_self_is_zero,
    law_merge_masks_owning_dimension,
    law_gate_names_first_failing_check,
    law_cluster_tables,
    law_feedback_selects_thresholds,
    law_transitions_step,
    law_oscillation_exact,
    law_window_is_latest_suffix,
    law_cycle_effect,
    run,
    latest,
    detected_of,
};
