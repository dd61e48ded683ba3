use vstd::prelude::*;

verus! {

/// Collapse decision from the structural decomposition.
#[derive(Clone, Copy, Debug, PartialEq, Eq, Structural)]
pub enum EnrichedGate {
    /// Sign consensus above threshold and exponent spread below threshold:
    /// safe to commit the delta.
    Flow,
    /// Sign consensus above threshold but exponent spread above threshold:
    /// direction agreed, intensity unclear; keep the delta floating.
    Hold,
    /// Too much tension or too little sign consensus: irreconcilable
    /// contradiction; discard the weakest delta.
    Block,
}

/// Which comparison decided the collapse, in the order they are made.
#[derive(Clone, Copy, Debug, PartialEq, Eq, Structural)]
pub enum GateCheck {
    /// The tensioned fraction is above the blocking threshold.
    TensionBlock,
    /// Tension is acceptable but mean sign consensus is below its minimum.
    ConsensusBlock,
    /// Consensus is acceptable but mean exponent spread is above its maximum.
    SpreadHold,
    /// Every check passed.
    Clear,
}

impl GateCheck {
    pub open spec fn spec_gate(self) -> EnrichedGate {
        match self {
            GateCheck::TensionBlock => EnrichedGate::Block,
            GateCheck::ConsensusBlock => EnrichedGate::Block,
            GateCheck::SpreadHold => EnrichedGate::Hold,
            GateCheck::Clear => EnrichedGate::Flow,
        }
    }

    /// The collapse decision that this outcome stands for.
    pub fn gate(&self) -> (r: EnrichedGate)
        ensures
            r == self.spec_gate(),
            *self == GateCheck::TensionBlock ==> r == EnrichedGate::Block,
            *self == GateCheck::ConsensusBlock ==> r == EnrichedGate::Block,
            *self == GateCheck::SpreadHold ==> r == EnrichedGate::Hold,
            *self == GateCheck::Clear ==> r == EnrichedGate::Flow,
    {
        match self {
            GateCheck::TensionBlock => EnrichedGate::Block,
            GateCheck::ConsensusBlock => EnrichedGate::Block,
            GateCheck::SpreadHold => EnrichedGate::Hold,
            GateCheck::Clear => EnrichedGate::Flow,
        }
    }
}

/// The collapse decision procedure over the outcomes of its three threshold
/// comparisons.
pub open spec fn spec_classify_gate(
    tension_over_limit: bool,
    consensus_below_min: bool,
    spread_over_max: bool,
) -> GateCheck {
    if tension_over_limit {
        GateCheck::TensionBlock
    } else if consensus_below_min {
        GateCheck::ConsensusBlock
    } else if spread_over_max {
        GateCheck::SpreadHold
    } else {
        GateCheck::Clear
    }
}

/// Orders the collapse comparisons: tension first (block), then sign consensus
/// (block), then exponent spread (hold); flow when none fires.
///
/// `tension_over_limit`: the tensioned fraction exceeds the tension block
/// threshold. `consensus_below_min`: the mean sign consensus is below the
/// minimum. `spread_over_max`: the mean exponent spread exceeds the maximum.
pub fn classify_gate(
    tension_over_limit: bool,
    consensus_below_min: bool,
    spread_over_max: bool,
) -> (r: GateCheck)
    ensures
        r == spec_classify_gate(tension_over_limit, consensus_below_min, spread_over_max),
        r.spec_gate() == EnrichedGate::Block <==> (tension_over_limit || consensus_below_min),
        r.spec_gate() == EnrichedGate::Hold <==> (!tension_over_limit && !consensus_below_min
            && spread_over_max),
        r.spec_gate() == EnrichedGate::Flow <==> (!tension_over_limit && !consensus_below_min
            && !spread_over_max),
        tension_over_limit ==> r == GateCheck::TensionBlock,
        !tension_over_limit && consensus_below_min ==> r == GateCheck::ConsensusBlock,
        !tension_over_limit && !consensus_below_min && spread_over_max ==> r
            == GateCheck::SpreadHold,
        !tension_over_limit && !consensus_below_min && !spread_over_max ==> r == GateCheck::Clear,
{
    if tension_over_limit {
        GateCheck::TensionBlock
    } else if consensus_below_min {
        GateCheck::ConsensusBlock
    } else if spread_over_max {
        GateCheck::SpreadHold
    } else {
        GateCheck::Clear
    }
}

} // verus!
