//! The proof-chain driver: a state machine that plans each proving step
//! (`Base`, then `Step(1)`, `Step(2)`, ...) and accepts a produced proof as the
//! new chain head only after it passes the consistency check and carries the
//! state that the step's transition gives.
use crate::consistency::{check_consistency, consistency_verdict};
use crate::error::{IvcError, StepFailure};
use crate::field::{all_field_elements, field_sum, is_field_element};
use crate::layout::{flag_value, PublicInputLayout};
use crate::step::{
    accumulate, accumulate_spec, chain_state, is_state, lemma_chain_accumulates, select_state, sum_of,
    COUNTER_SLOT, STATE_LEN, VALUE_SLOT,
};
use vstd::prelude::*;

verus! {

/// Which proof the chain produces next.
#[derive(Clone, Copy, Debug, PartialEq, Eq, Structural)]
pub enum ChainPhase {
    /// The first proof, over a placeholder inner proof.
    Base,
    /// Proof number `n`, over proof `n - 1`.
    Step(u64),
}

/// The last accepted proof: its index and public inputs.
#[derive(Debug)]
pub struct ChainHead {
    pub step: u64,
    pub public_inputs: Vec<u64>,
}

/// The witness choices of the next proving step.
#[derive(Debug)]
pub struct StepPlan {
    /// The index of the proof to produce.
    pub step: u64,
    /// The condition flag: verify the inner proof, or accept the placeholder.
    pub condition: bool,
    /// The public inputs of the inner proof: the chain head's, or the
    /// placeholder's in the base case.
    pub inner_public_inputs: Vec<u64>,
    /// The state that the produced proof must expose.
    pub expected_state: Vec<u64>,
}

/// A chain of proofs of one canonical circuit.
pub struct ProofChain {
    pub layout: PublicInputLayout,
    pub canonical_vk: Vec<u64>,
    pub initial_state: Vec<u64>,
    pub head: Option<ChainHead>,
    /// The deltas of the accepted steps, in order.
    pub deltas: Ghost<Seq<u64>>,
}

impl ProofChain {
    pub open spec fn wf(self) -> bool {
        &&& self.layout.wf()
        &&& self.layout.num_state == STATE_LEN
        &&& self.canonical_vk@.len() == self.layout.vk_len
        &&& is_state(self.initial_state@)
        &&& all_field_elements(self.deltas@)
        &&& match self.head {
            None => self.deltas@.len() == 0,
            Some(h) => {
                &&& h.step < u64::MAX
                &&& self.deltas@.len() == h.step + 1
                &&& consistency_verdict(self.layout, h.public_inputs@, self.canonical_vk@, true) is Ok
                &&& h.public_inputs@[self.layout.condition_index()] == flag_value(h.step > 0)
                &&& self.layout.state_part(h.public_inputs@) == chain_state(
                    self.initial_state@,
                    self.deltas@,
                )
            },
        }
    }

    /// The index of the next proof.
    pub open spec fn next_index(self) -> int {
        match self.head {
            None => 0,
            Some(h) => h.step + 1,
        }
    }

    /// The public inputs of the placeholder inner proof of the base step:
    /// the initial state, a false flag and the canonical key.
    pub open spec fn dummy_public_inputs(self) -> Seq<u64> {
        self.initial_state@ + seq![0u64] + self.canonical_vk@
    }

    /// The inner public inputs that the next step verifies.
    pub open spec fn inner_public_inputs(self) -> Seq<u64> {
        match self.head {
            None => self.dummy_public_inputs(),
            Some(h) => h.public_inputs@,
        }
    }

    /// The verdict on a proof produced for the next step with `delta`.
    pub open spec fn step_verdict(self, delta: u64, produced: Seq<u64>, verified: bool) -> Result<
        (),
        IvcError,
    > {
        if self.next_index() == u64::MAX {
            Err(IvcError::ChainExhausted)
        } else if consistency_verdict(self.layout, produced, self.canonical_vk@, verified) is Err {
            consistency_verdict(self.layout, produced, self.canonical_vk@, verified)
        } else if produced[self.layout.condition_index()] != flag_value(self.head is Some)
            || self.layout.state_part(produced) != chain_state(
            self.initial_state@,
            self.deltas@.push(delta),
        ) {
            Err(IvcError::ConstraintUnsatisfied)
        } else {
            Ok(())
        }
    }

    /// A chain that has produced nothing yet; `ShapeMismatch` where the
    /// layout is not the accumulating step's or the key or initial state has
    /// the wrong length.
    pub fn new(layout: PublicInputLayout, canonical_vk: Vec<u64>, initial_state: Vec<u64>) -> (r: Result<
        ProofChain,
        IvcError,
    >)
        requires
            all_field_elements(initial_state@),
        ensures
            r.is_ok() <==> (layout.wf() && layout.num_state == STATE_LEN && canonical_vk@.len()
                == layout.vk_len && initial_state@.len() == STATE_LEN),
            r matches Ok(c) ==> c.wf() && c.head is None && c.layout == layout && c.canonical_vk@
                == canonical_vk@ && c.initial_state@ == initial_state@,
            r matches Err(e) ==> e == IvcError::ShapeMismatch,
    {
        if layout.num_state != STATE_LEN || layout.vk_len > usize::MAX - 1 - layout.num_state
            || canonical_vk.len() != layout.vk_len || initial_state.len() != STATE_LEN {
            return Err(IvcError::ShapeMismatch);
        }
        Ok(ProofChain { layout, canonical_vk, initial_state, head: None, deltas: Ghost(Seq::empty()) })
    }

    /// Which proof comes next.
    pub fn phase(&self) -> (r: ChainPhase)
        requires
            self.wf(),
        ensures
            self.head is None ==> r == ChainPhase::Base,
            self.head matches Some(h) ==> r == ChainPhase::Step((h.step + 1) as u64),
    {
        match &self.head {
            None => ChainPhase::Base,
            Some(h) => ChainPhase::Step(h.step + 1),
        }
    }

    /// The state exposed by the chain head, if there is one.
    pub fn head_state(&self) -> (r: Option<Vec<u64>>)
        requires
            self.wf(),
        ensures
            self.head is None ==> r is None,
            self.head matches Some(h) ==> r matches Some(s) && s@ == chain_state(
                self.initial_state@,
                self.deltas@,
            ),
    {
        match &self.head {
            None => None,
            Some(h) => self.layout.state_of(&h.public_inputs),
        }
    }

    /// The witness choices of the next step with `delta`: in the base case a
    /// false flag and the placeholder's public inputs, afterwards a true flag
    /// and the head's public inputs; and the state the proof must expose.
    pub fn plan(&self, delta: u64) -> (r: StepPlan)
        requires
            self.wf(),
            is_field_element(delta),
        ensures
            r.step == self.next_index(),
            r.condition == self.head is Some,
            r.inner_public_inputs@ == self.inner_public_inputs(),
            r.expected_state@ == chain_state(self.initial_state@, self.deltas@.push(delta)),
    {
        let ghost d = self.deltas@.push(delta);
        assert(d.drop_last() =~= self.deltas@);
        assert(chain_state(self.initial_state@, d) == accumulate_spec(
            chain_state(self.initial_state@, self.deltas@),
            delta,
        ));
        match &self.head {
            None => {
                let pis = self.layout.assemble(&self.initial_state, false, &self.canonical_vk);
                let inner = pis.unwrap();
                assert(inner@ =~= self.dummy_public_inputs());
                let expected = accumulate(false, &self.initial_state, &self.initial_state, delta);
                StepPlan { step: 0, condition: false, inner_public_inputs: inner, expected_state: expected }
            },
            Some(h) => {
                proof {
                    lemma_chain_accumulates(self.initial_state@, self.deltas@);
                }
                let state = self.layout.state_of(&h.public_inputs).unwrap();
                let expected = accumulate(true, &state, &self.initial_state, delta);
                StepPlan {
                    step: h.step + 1,
                    condition: true,
                    inner_public_inputs: h.public_inputs.clone(),
                    expected_state: expected,
                }
            },
        }
    }

    /// Accepts `produced`, the public inputs of the proof made for the next
    /// step with `delta`, as the new chain head, where `verified` is the
    /// backend's verification of that proof against the canonical circuit.
    /// The head moves only where the proof passes the consistency check and
    /// carries the expected flag and state; otherwise the chain is left as it
    /// was and the failure names the step and the check.
    pub fn advance(&mut self, delta: u64, produced: &Vec<u64>, verified: bool) -> (r: Result<
        u64,
        StepFailure,
    >)
        requires
            old(self).wf(),
            is_field_element(delta),
        ensures
            final(self).wf(),
            r.is_ok() <==> old(self).step_verdict(delta, produced@, verified) is Ok,
            r matches Ok(n) ==> {
                &&& n == old(self).next_index()
                &&& final(self).head matches Some(h) && h.step == n && h.public_inputs@ == produced@
                &&& final(self).deltas@ == old(self).deltas@.push(delta)
                &&& final(self).layout == old(self).layout
                &&& final(self).canonical_vk@ == old(self).canonical_vk@
                &&& final(self).initial_state@ == old(self).initial_state@
            },
            r matches Err(f) ==> {
                &&& f.step == old(self).next_index()
                &&& Err::<(), IvcError>(f.error) == old(self).step_verdict(delta, produced@, verified)
                &&& *final(self) == *old(self)
            },
    {
        let next: u64 = match &self.head {
            None => 0,
            Some(h) => h.step + 1,
        };
        if next == u64::MAX {
            return Err(StepFailure { step: next, error: IvcError::ChainExhausted });
        }
        match check_consistency(&self.layout, produced, &self.canonical_vk, verified) {
            Err(e) => {
                return Err(StepFailure { step: next, error: e });
            },
            Ok(()) => {},
        }
        let plan = self.plan(delta);
        let flag_ok = match self.layout.condition_of(produced) {
            Some(b) => b == plan.condition,
            None => false,
        };
        let state = self.layout.state_of(produced).unwrap();
        if !flag_ok || !values_equal(&state, &plan.expected_state) {
            return Err(StepFailure { step: next, error: IvcError::ConstraintUnsatisfied });
        }
        proof {
            let d = self.deltas@.push(delta);
            assert forall|i: int| 0 <= i < d.len() implies is_field_element(#[trigger] d[i]) by {
                if i < self.deltas@.len() {
                    assert(d[i] == self.deltas@[i]);
                }
            }
        }
        self.head = Some(ChainHead { step: next, public_inputs: produced.clone() });
        self.deltas = Ghost(self.deltas@.push(delta));
        Ok(next)
    }
}

/// The base step's expected output does not depend on the placeholder inner
/// proof: any two placeholders of the state's shape give the same state, and a
/// fresh chain accepts a verified base proof that carries that state, a false
/// flag and the canonical key, whatever placeholder stood behind it.
pub proof fn lemma_base_case_accepted(
    chain: ProofChain,
    dummy_a: Seq<u64>,
    dummy_b: Seq<u64>,
    delta: u64,
)
    requires
        chain.wf(),
        chain.head is None,
        is_state(dummy_a),
        is_state(dummy_b),
        is_field_element(delta),
    ensures
        select_state(false, dummy_a, chain.initial_state@) == select_state(
            false,
            dummy_b,
            chain.initial_state@,
        ),
        chain.step_verdict(
            delta,
            accumulate_spec(select_state(false, dummy_a, chain.initial_state@), delta) + seq![0u64]
                + chain.canonical_vk@,
            true,
        ) is Ok,
{
    let produced = accumulate_spec(chain.initial_state@, delta) + seq![0u64] + chain.canonical_vk@;
    let d = chain.deltas@.push(delta);
    assert(d.drop_last() =~= chain.deltas@);
    assert(chain.layout.state_part(produced) =~= accumulate_spec(chain.initial_state@, delta));
    assert(chain.layout.vk_part(produced) =~= chain.canonical_vk@);
    assert(chain_state(chain.initial_state@, chain.deltas@) == chain.initial_state@);
    assert(chain_state(chain.initial_state@, d) == accumulate_spec(chain.initial_state@, delta));
    assert(produced[chain.layout.condition_index()] == 0);
    assert(consistency_verdict(chain.layout, produced, chain.canonical_vk@, true) is Ok);
}

/// The chain head exposes the initial value plus every accepted delta, and
/// the initial counter plus the number of accepted proofs.
pub proof fn lemma_head_accumulates(chain: ProofChain)
    requires
        chain.wf(),
        chain.head is Some,
    ensures
        chain.layout.state_part(chain.head->0.public_inputs@)[VALUE_SLOT as int] == field_sum(
            chain.initial_state@[VALUE_SLOT as int] as int,
            sum_of(chain.deltas@),
        ),
        chain.layout.state_part(chain.head->0.public_inputs@)[COUNTER_SLOT as int] == field_sum(
            chain.initial_state@[COUNTER_SLOT as int] as int,
            chain.head->0.step + 1,
        ),
{
    lemma_chain_accumulates(chain.initial_state@, chain.deltas@);
}

/// Whether two vectors hold the same values.
fn values_equal(a: &Vec<u64>, b: &Vec<u64>) -> (r: bool)
    ensures
        r == (a@ == b@),
{
    if a.len() != b.len() {
        return false;
    }
    let mut i: usize = 0;
    while i < a.len()
        invariant
            i <= a@.len() == b@.len(),
            forall|k: int| 0 <= k < i ==> a@[k] == b@[k],
        decreases a@.len() - i,
    {
        if a[i] != b[i] {
            return false;
        }
        i = i + 1;
    }
    assert(a@ =~= b@);
    true
}

} // verus!