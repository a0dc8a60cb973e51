//! Circuit descriptors and the fixed-point search that finds the descriptor
//! of a circuit that verifies proofs of its own shape.
//!
//! The search observes, round by round, the shape of a circuit that verifies
//! one proof of the previously observed shape, and stops at the first round
//! whose shape equals the one before it, the public-input count being fixed
//! by the step template.
use crate::error::IvcError;
use vstd::prelude::*;

verus! {

/// The external shape of a circuit: enough to build a verifier for circuits
/// of that shape without knowing their constraints.
#[derive(Clone, Copy, Debug, PartialEq, Eq, Structural)]
pub struct CircuitShape {
    /// Log2 of the padded gate count.
    pub degree_bits: usize,
    /// The number of distinct gate kinds.
    pub num_gate_kinds: usize,
    /// The number of gate constraints.
    pub num_gate_constraints: usize,
    /// The number of constant columns.
    pub num_constants: usize,
    /// The number of public inputs.
    pub num_public_inputs: usize,
    /// Log2 of the number of commitment cap elements.
    pub cap_height: usize,
    /// The degree factor of the quotient polynomials.
    pub quotient_degree_factor: usize,
}

/// What the search does next.
#[derive(Clone, Copy, Debug, PartialEq, Eq, Structural)]
pub enum StabilizerAction {
    /// Build the next round's circuit and observe its shape: the first round
    /// has no recursive verification, each later one verifies one proof of
    /// the last observed shape.
    BuildRound,
    /// The fixed point: the descriptor that every step circuit references.
    Converged(CircuitShape),
}

/// The round limit that the search uses by default.
pub const DEFAULT_MAX_ROUNDS: usize = 4;

/// The number of field elements in one hash.
pub const HASH_LEN: usize = 4;

/// `2^n`.
pub open spec fn two_pow(n: nat) -> nat
    decreases n,
{
    if n == 0 {
        1
    } else {
        2 * two_pow((n - 1) as nat)
    }
}

/// The round boundary of a gate count: the least `d` with `2^d` gates or more.
pub fn padded_degree_bits(num_gates: u64) -> (d: u32)
    ensures
        two_pow(d as nat) >= num_gates,
        d == 0 || two_pow((d - 1) as nat) < num_gates,
        d <= 64,
{
    let mut d: u32 = 0;
    let mut size: u128 = 1;
    while size < num_gates as u128
        invariant
            size == two_pow(d as nat),
            d <= 64,
            d == 0 || two_pow((d - 1) as nat) < num_gates,
        decreases 64 - d,
    {
        proof {
            if d == 64 {
                lemma_two_pow_64();
            }
        }
        size = size * 2;
        d = d + 1;
    }
    d
}

proof fn lemma_two_pow_64()
    ensures
        two_pow(64) == 0x1_0000_0000_0000_0000,
{
    reveal_with_fuel(two_pow, 65);
}

/// The number of public inputs that a verifier-key commitment takes: the
/// circuit digest and one hash for each of the `2^cap_height` cap elements;
/// `None` where that count does not fit in `usize`.
pub fn verifier_key_len(cap_height: usize) -> (r: Option<usize>)
    ensures
        r is Some <==> HASH_LEN * (1 + two_pow(cap_height as nat)) <= usize::MAX,
        r matches Some(n) ==> n == HASH_LEN * (1 + two_pow(cap_height as nat)),
{
    let mut i: usize = 0;
    let mut cap: usize = 1;
    while i < cap_height
        invariant
            i <= cap_height,
            cap == two_pow(i as nat),
        decreases cap_height - i,
    {
        if cap > (usize::MAX / HASH_LEN - 1) / 2 {
            proof {
                lemma_two_pow_grows(i as nat, cap_height as nat);
            }
            return None;
        }
        cap = cap * 2;
        i = i + 1;
    }
    if cap > usize::MAX / HASH_LEN - 1 {
        return None;
    }
    Some(HASH_LEN * (1 + cap))
}

/// `2^n` grows with `n`.
proof fn lemma_two_pow_grows(a: nat, b: nat)
    requires
        a < b,
    ensures
        two_pow(b) >= 2 * two_pow(a),
    decreases b - a,
{
    if a + 1 < b {
        lemma_two_pow_grows(a, (b - 1) as nat);
        lemma_two_pow_positive((b - 1) as nat);
    }
}

proof fn lemma_two_pow_positive(n: nat)
    ensures
        two_pow(n) >= 1,
    decreases n,
{
    if n > 0 {
        lemma_two_pow_positive((n - 1) as nat);
    }
}

/// The shape with the template's public-input count.
pub open spec fn normalized(s: CircuitShape, num_public_inputs: usize) -> CircuitShape {
    CircuitShape { num_public_inputs, ..s }
}

/// The descriptor found in the observations, if two consecutive ones agree:
/// the first such pair decides.
pub open spec fn fixed_point_of(obs: Seq<CircuitShape>, num_public_inputs: usize) -> Option<
    CircuitShape,
>
    decreases obs.len(),
{
    if obs.len() < 2 {
        None
    } else if fixed_point_of(obs.drop_last(), num_public_inputs) is Some {
        fixed_point_of(obs.drop_last(), num_public_inputs)
    } else if normalized(obs.last(), num_public_inputs) == normalized(
        obs[obs.len() - 2],
        num_public_inputs,
    ) {
        Some(normalized(obs.last(), num_public_inputs))
    } else {
        None
    }
}

/// What the search does after the observations `obs`.
pub open spec fn stabilizer_spec(obs: Seq<CircuitShape>, num_public_inputs: usize, max_rounds: usize) -> Result<
    StabilizerAction,
    IvcError,
> {
    match fixed_point_of(obs, num_public_inputs) {
        Some(s) => Ok(StabilizerAction::Converged(s)),
        None => if obs.len() >= max_rounds {
            Err(IvcError::StabilizationFailure)
        } else {
            Ok(StabilizerAction::BuildRound)
        },
    }
}

/// The next action of the descriptor search, given the shapes observed so far
/// in round order: the fixed point where two consecutive shapes agree, a
/// `StabilizationFailure` where `max_rounds` rounds did not reach one, and
/// another round otherwise.
pub fn stabilizer_step(observed: &Vec<CircuitShape>, num_public_inputs: usize, max_rounds: usize) -> (r:
    Result<StabilizerAction, IvcError>)
    ensures
        r == stabilizer_spec(observed@, num_public_inputs, max_rounds),
{
    if observed.len() == 0 {
        return if max_rounds == 0 {
            Err(IvcError::StabilizationFailure)
        } else {
            Ok(StabilizerAction::BuildRound)
        };
    }
    let mut i: usize = 1;
    while i < observed.len()
        invariant
            1 <= i <= observed@.len(),
            fixed_point_of(observed@.subrange(0, i as int), num_public_inputs) is None,
        decreases observed@.len() - i,
    {
        let prev = normalize(observed[i - 1], num_public_inputs);
        let cur = normalize(observed[i], num_public_inputs);
        let ghost pre = observed@.subrange(0, i + 1);
        assert(pre.drop_last() =~= observed@.subrange(0, i as int));
        if prev == cur {
            proof {
                assert(pre.last() == observed@[i as int]);
                assert(pre[pre.len() - 2] == observed@[i - 1]);
                assert(fixed_point_of(pre, num_public_inputs) == Some(cur));
                lemma_fixed_point_kept(pre, observed@);
            }
            return Ok(StabilizerAction::Converged(cur));
        }
        i = i + 1;
    }
    assert(observed@.subrange(0, observed@.len() as int) =~= observed@);
    if observed.len() >= max_rounds {
        Err(IvcError::StabilizationFailure)
    } else {
        Ok(StabilizerAction::BuildRound)
    }
}

/// The shape with the template's public-input count.
pub fn normalize(s: CircuitShape, num_public_inputs: usize) -> (r: CircuitShape)
    ensures
        r == normalized(s, num_public_inputs),
{
    CircuitShape { num_public_inputs, ..s }
}

/// A fixed point found in a prefix of the observations is the one found in
/// all of them.
pub proof fn lemma_fixed_point_kept(pre: Seq<CircuitShape>, obs: Seq<CircuitShape>)
    requires
        pre.len() <= obs.len(),
        pre == obs.subrange(0, pre.len() as int),
    ensures
        forall|n: usize| #[trigger] fixed_point_of(pre, n) is Some ==> fixed_point_of(obs, n) == fixed_point_of(pre, n),
    decreases obs.len() - pre.len(),
{
    if pre.len() < obs.len() {
        let mid = obs.subrange(0, obs.len() - 1);
        assert(pre == mid.subrange(0, pre.len() as int));
        lemma_fixed_point_kept(pre, mid);
        assert(obs.drop_last() =~= mid);
    } else {
        assert(obs =~= pre);
    }
}

/// The observations start at `first` and each later one is what the round
/// function gives on the one before: a deterministic circuit build.
pub open spec fn follows_rounds(
    obs: Seq<CircuitShape>,
    first: CircuitShape,
    round: spec_fn(CircuitShape) -> CircuitShape,
) -> bool {
    &&& obs.len() >= 1
    &&& obs[0] == first
    &&& forall|k: int| 0 <= k < obs.len() - 1 ==> #[trigger] obs[k + 1] == round(obs[k])
}

/// Two runs of the search for one step template, over a deterministic circuit
/// build, that both converge reach the same descriptor, however many rounds
/// each was allowed.
pub proof fn lemma_stabilizer_deterministic(
    obs1: Seq<CircuitShape>,
    obs2: Seq<CircuitShape>,
    first: CircuitShape,
    round: spec_fn(CircuitShape) -> CircuitShape,
    num_public_inputs: usize,
    max1: usize,
    max2: usize,
)
    requires
        follows_rounds(obs1, first, round),
        follows_rounds(obs2, first, round),
        stabilizer_spec(obs1, num_public_inputs, max1) matches Ok(a) && a is Converged,
        stabilizer_spec(obs2, num_public_inputs, max2) matches Ok(a) && a is Converged,
    ensures
        stabilizer_spec(obs1, num_public_inputs, max1) == stabilizer_spec(obs2, num_public_inputs, max2),
{
    if obs1.len() <= obs2.len() {
        lemma_runs_agree(obs1, obs2, first, round, obs1.len() as int);
        assert(obs1 =~= obs2.subrange(0, obs1.len() as int));
        lemma_fixed_point_kept(obs1, obs2);
        assert(fixed_point_of(obs1, num_public_inputs) is Some);
    } else {
        lemma_runs_agree(obs2, obs1, first, round, obs2.len() as int);
        assert(obs2 =~= obs1.subrange(0, obs2.len() as int));
        lemma_fixed_point_kept(obs2, obs1);
        assert(fixed_point_of(obs2, num_public_inputs) is Some);
    }
}

/// Two runs over the same round function agree on their first `k` shapes.
proof fn lemma_runs_agree(
    a: Seq<CircuitShape>,
    b: Seq<CircuitShape>,
    first: CircuitShape,
    round: spec_fn(CircuitShape) -> CircuitShape,
    k: int,
)
    requires
        follows_rounds(a, first, round),
        follows_rounds(b, first, round),
        1 <= k <= a.len(),
        k <= b.len(),
    ensures
        forall|j: int| 0 <= j < k ==> #[trigger] a[j] == b[j],
    decreases k,
{
    if k > 1 {
        lemma_runs_agree(a, b, first, round, k - 1);
        let j = k - 2;
        assert(a[j + 1] == round(a[j]));
        assert(b[j + 1] == round(b[j]));
    }
}

} // verus!
