use vstd::prelude::*;

verus! {

/// Detected thinking style, as an emergent property of the decomposition.
///
/// Each variant is one of the five philosopher clusters.
#[derive(Clone, Copy, Debug, PartialEq, Eq, Structural)]
pub enum ThinkingCluster {
    /// High crystallized, low tensioned: settled, focused reasoning.
    Convergent,
    /// Low crystallized, high uncertain: exploring magnitude space.
    Divergent,
    /// Medium crystallized, high tensioned: holding contradictions.
    Dialectical,
    /// Low everything except noise: receptive, listening for signal.
    Receptive,
    /// Very high crystallized, near-zero everything else: frozen.
    Committed,
}

/// Which set of collapse-gate thresholds is in force.
///
/// `Configured` is the set the loop was configured with; the others are the
/// fixed presets (`Standard` is the default set).
#[derive(Clone, Copy, Debug, PartialEq, Eq, Structural)]
pub enum ThresholdSource {
    Configured,
    Standard,
    Analytical,
    Explorer,
    Dialectical,
}

/// The preset that a dominant cluster selects.
pub open spec fn spec_threshold_source_for(cluster: ThinkingCluster) -> ThresholdSource {
    match cluster {
        ThinkingCluster::Convergent => ThresholdSource::Analytical,
        ThinkingCluster::Committed => ThresholdSource::Analytical,
        ThinkingCluster::Divergent => ThresholdSource::Explorer,
        ThinkingCluster::Dialectical => ThresholdSource::Dialectical,
        ThinkingCluster::Receptive => ThresholdSource::Standard,
    }
}

/// The cluster whose thresholds negative feedback switches to.
pub open spec fn spec_complement(cluster: ThinkingCluster) -> ThinkingCluster {
    match cluster {
        ThinkingCluster::Convergent => ThinkingCluster::Divergent,
        ThinkingCluster::Divergent => ThinkingCluster::Convergent,
        ThinkingCluster::Dialectical => ThinkingCluster::Receptive,
        ThinkingCluster::Receptive => ThinkingCluster::Dialectical,
        ThinkingCluster::Committed => ThinkingCluster::Divergent,
    }
}

/// Threshold preset adapted to a dominant cluster: convergent and committed
/// styles get the strict analytical set, divergent the loose explorer set,
/// dialectical its tension-tolerant set, receptive the standard set.
pub fn threshold_source_for(cluster: ThinkingCluster) -> (r: ThresholdSource)
    ensures
        r == spec_threshold_source_for(cluster),
        r != ThresholdSource::Configured,
        cluster == ThinkingCluster::Convergent ==> r == ThresholdSource::Analytical,
        cluster == ThinkingCluster::Committed ==> r == ThresholdSource::Analytical,
        cluster == ThinkingCluster::Divergent ==> r == ThresholdSource::Explorer,
        cluster == ThinkingCluster::Dialectical ==> r == ThresholdSource::Dialectical,
        cluster == ThinkingCluster::Receptive ==> r == ThresholdSource::Standard,
{
    match cluster {
        ThinkingCluster::Convergent | ThinkingCluster::Committed => ThresholdSource::Analytical,
        ThinkingCluster::Divergent => ThresholdSource::Explorer,
        ThinkingCluster::Dialectical => ThresholdSource::Dialectical,
        ThinkingCluster::Receptive => ThresholdSource::Standard,
    }
}

/// The complementary cluster: convergent and committed map to divergent,
/// divergent to convergent, and dialectical and receptive to each other.
pub fn complement(cluster: ThinkingCluster) -> (r: ThinkingCluster)
    ensures
        r == spec_complement(cluster),
        r != cluster,
        cluster == ThinkingCluster::Convergent ==> r == ThinkingCluster::Divergent,
        cluster == ThinkingCluster::Divergent ==> r == ThinkingCluster::Convergent,
        cluster == ThinkingCluster::Dialectical ==> r == ThinkingCluster::Receptive,
        cluster == ThinkingCluster::Receptive ==> r == ThinkingCluster::Dialectical,
        cluster == ThinkingCluster::Committed ==> r == ThinkingCluster::Divergent,
{
    match cluster {
        ThinkingCluster::Convergent => ThinkingCluster::Divergent,
        ThinkingCluster::Divergent => ThinkingCluster::Convergent,
        ThinkingCluster::Dialectical => ThinkingCluster::Receptive,
        ThinkingCluster::Receptive => ThinkingCluster::Dialectical,
        ThinkingCluster::Committed => ThinkingCluster::Divergent,
    }
}

} // verus!
