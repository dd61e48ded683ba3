use vstd::prelude::*;

verus! {

/// Classification of one dimension of a superposition of vectors.
#[derive(Clone, Copy, Debug, PartialEq, Eq, Structural)]
pub enum AwarenessState {
    /// The superposed values agree.
    Crystallized,
    /// The superposed values disagree in sign.
    Tensioned,
    /// Same sign, but the magnitudes differ widely.
    Uncertain,
    /// Only the mantissa differs: no structural significance.
    Noise,
}

/// The per-dimension classification of a superposition, as the merge reads
/// it: `states[d]` classifies dimension `d` for `d < n_dims`.
pub struct Decomposition {
    pub n_dims: usize,
    pub states: Vec<AwarenessState>,
}

/// Byte `i` of the selective merge of `a` and `b`: the XOR of the two
/// deltas where the dimension owning that byte (two bytes per dimension) is
/// structurally significant, zero where it is noise.
pub open spec fn merged_byte(a: Seq<u8>, b: Seq<u8>, states: Seq<AwarenessState>, i: int) -> u8 {
    if states[i / 2] == AwarenessState::Noise {
        0u8
    } else {
        a[i] ^ b[i]
    }
}

/// Selective merge: XOR of the two deltas on every dimension whose state is
/// not `Noise`; the two bytes of a noise dimension are zero.
///
/// Both deltas hold two bytes per dimension of `state`.
pub fn selective_merge(delta_a: &[u8], delta_b: &[u8], state: &Decomposition) -> (merged: Vec<u8>)
    requires
        delta_a@.len() == delta_b@.len(),
        delta_a@.len() == state.n_dims * 2,
        state.states@.len() >= state.n_dims,
    ensures
        merged@.len() == delta_a@.len(),
        forall|i: int|
            0 <= i < merged@.len() ==> #[trigger] merged@[i] == merged_byte(
                delta_a@,
                delta_b@,
                state.states@,
                i,
            ),
        forall|i: int|
            0 <= i < merged@.len() ==> #[trigger] merged@[i] == (if state.states@[i / 2]
                == AwarenessState::Noise {
                0u8
            } else {
                delta_a@[i] ^ delta_b@[i]
            }),
{
    let n = state.n_dims;
    assert(n * 2 == delta_a.len());
    let mut merged: Vec<u8> = Vec::new();
    let mut d: usize = 0;
    while d < n
        invariant
            d <= n,
            n == state.n_dims,
            delta_a@.len() == delta_b@.len(),
            delta_a@.len() == n * 2,
            n * 2 <= usize::MAX,
            state.states@.len() >= n,
            merged@.len() == d * 2,
            forall|i: int|
                0 <= i < merged@.len() ==> #[trigger] merged@[i] == merged_byte(
                    delta_a@,
                    delta_b@,
                    state.states@,
                    i,
                ),
        decreases n - d,
    {
        let offset = d * 2;
        if state.states[d] != AwarenessState::Noise {
            merged.push(delta_a[offset] ^ delta_b[offset]);
            merged.push(delta_a[offset + 1] ^ delta_b[offset + 1]);
        } else {
            merged.push(0u8);
            merged.push(0u8);
        }
        assert(offset as int / 2 == d as int);
        assert((offset + 1) as int / 2 == d as int);
        d = d + 1;
    }
    merged
}

} // verus!
