//! The fixed order of a step circuit's public inputs:
//! `[state..., condition, verifier_key...]`.
use vstd::prelude::*;

verus! {

/// Slot counts of the public inputs of one circuit variant.
#[derive(Clone, Copy, Debug, PartialEq, Eq, Structural)]
pub struct PublicInputLayout {
    pub num_state: usize,
    pub vk_len: usize,
}

/// The field value that encodes a condition flag.
pub open spec fn flag_value(b: bool) -> u64 {
    if b { 1 } else { 0 }
}

impl PublicInputLayout {
    /// The total count fits in `usize`.
    pub open spec fn wf(self) -> bool {
        self.num_state + 1 + self.vk_len <= usize::MAX
    }

    pub open spec fn total(self) -> nat {
        (self.num_state + 1 + self.vk_len) as nat
    }

    pub open spec fn condition_index(self) -> int {
        self.num_state as int
    }

    pub open spec fn vk_start(self) -> int {
        self.num_state + 1
    }

    /// The state fields of a public-input vector.
    pub open spec fn state_part(self, pis: Seq<u64>) -> Seq<u64> {
        pis.subrange(0, self.num_state as int)
    }

    /// The verifier-key commitment of a public-input vector.
    pub open spec fn vk_part(self, pis: Seq<u64>) -> Seq<u64> {
        pis.subrange(self.vk_start(), self.total() as int)
    }

    /// `pis` holds `state`, the flag `condition` and `vk`, each in its slots.
    pub open spec fn encodes(self, pis: Seq<u64>, state: Seq<u64>, condition: bool, vk: Seq<u64>) -> bool {
        &&& pis.len() == self.total()
        &&& state.len() == self.num_state
        &&& vk.len() == self.vk_len
        &&& self.state_part(pis) == state
        &&& pis[self.condition_index()] == flag_value(condition)
        &&& self.vk_part(pis) == vk
    }

    /// A layout, where its total slot count fits in `usize`.
    pub fn new(num_state: usize, vk_len: usize) -> (r: Option<PublicInputLayout>)
        ensures
            r.is_some() <==> num_state + 1 + vk_len <= usize::MAX,
            r matches Some(l) ==> l.wf() && l.num_state == num_state && l.vk_len == vk_len,
    {
        if num_state < usize::MAX && vk_len <= usize::MAX - 1 - num_state {
            Some(PublicInputLayout { num_state, vk_len })
        } else {
            None
        }
    }

    /// The number of public inputs.
    pub fn num_public_inputs(&self) -> (r: usize)
        requires
            self.wf(),
        ensures
            r == self.total(),
    {
        self.num_state + 1 + self.vk_len
    }

    /// The slot of state field `i`.
    pub fn state_slot(&self, i: usize) -> (r: usize)
        requires
            i < self.num_state,
        ensures
            r == i,
    {
        i
    }

    /// The slot of the condition flag.
    pub fn condition_slot(&self) -> (r: usize)
        ensures
            r == self.condition_index(),
    {
        self.num_state
    }

    /// The slot of element `j` of the verifier-key commitment.
    pub fn verifier_key_slot(&self, j: usize) -> (r: usize)
        requires
            self.wf(),
            j < self.vk_len,
        ensures
            r == self.vk_start() + j,
    {
        self.num_state + 1 + j
    }

    /// Lays out state, condition flag and verifier key in their slots; `None`
    /// where a part has the wrong length.
    pub fn assemble(&self, state: &Vec<u64>, condition: bool, vk: &Vec<u64>) -> (r: Option<Vec<u64>>)
        requires
            self.wf(),
        ensures
            r.is_some() <==> (state@.len() == self.num_state && vk@.len() == self.vk_len),
            r matches Some(pis) ==> self.encodes(pis@, state@, condition, vk@),
    {
        if state.len() != self.num_state || vk.len() != self.vk_len {
            return None;
        }
        let mut pis: Vec<u64> = Vec::new();
        let mut i: usize = 0;
        while i < state.len()
            invariant
                i <= state@.len(),
                pis@ == state@.subrange(0, i as int),
            decreases state@.len() - i,
        {
            pis.push(state[i]);
            i = i + 1;
        }
        pis.push(if condition { 1u64 } else { 0u64 });
        let mut j: usize = 0;
        while j < vk.len()
            invariant
                j <= vk@.len(),
                state@.len() == self.num_state,
                pis@.len() == self.num_state + 1 + j,
                pis@.subrange(0, self.num_state as int) == state@,
                pis@[self.num_state as int] == flag_value(condition),
                pis@.subrange(self.num_state + 1, pis@.len() as int) == vk@.subrange(0, j as int),
            decreases vk@.len() - j,
        {
            pis.push(vk[j]);
            j = j + 1;
            assert(pis@.subrange(self.num_state + 1, pis@.len() as int) =~= vk@.subrange(0, j as int));
            assert(pis@.subrange(0, self.num_state as int) =~= state@);
        }
        assert(vk@.subrange(0, vk@.len() as int) =~= vk@);
        Some(pis)
    }

    /// The state fields of `pis`; `None` where `pis` has not the layout's length.
    pub fn state_of(&self, pis: &Vec<u64>) -> (r: Option<Vec<u64>>)
        requires
            self.wf(),
        ensures
            r.is_some() <==> pis@.len() == self.total(),
            r matches Some(s) ==> s@ == self.state_part(pis@),
    {
        if pis.len() != self.num_public_inputs() {
            return None;
        }
        Some(copy_range(pis, 0, self.num_state))
    }

    /// The condition flag of `pis`; `None` where `pis` has not the layout's
    /// length or its flag slot holds neither 0 nor 1.
    pub fn condition_of(&self, pis: &Vec<u64>) -> (r: Option<bool>)
        requires
            self.wf(),
        ensures
            r.is_some() <==> (pis@.len() == self.total() && (pis@[self.condition_index()] == 0
                || pis@[self.condition_index()] == 1)),
            r matches Some(b) ==> pis@[self.condition_index()] == flag_value(b),
    {
        if pis.len() != self.num_public_inputs() {
            return None;
        }
        let v = pis[self.num_state];
        if v == 1 {
            Some(true)
        } else if v == 0 {
            Some(false)
        } else {
            None
        }
    }

    /// The verifier-key commitment of `pis`; `None` where `pis` has not the
    /// layout's length.
    pub fn verifier_key_of(&self, pis: &Vec<u64>) -> (r: Option<Vec<u64>>)
        requires
            self.wf(),
        ensures
            r.is_some() <==> pis@.len() == self.total(),
            r matches Some(k) ==> k@ == self.vk_part(pis@),
    {
        let n = self.num_public_inputs();
        if pis.len() != n {
            return None;
        }
        Some(copy_range(pis, self.num_state + 1, n))
    }
}

/// The entries of `v` from `lo` up to, not including, `hi`.
pub fn copy_range(v: &Vec<u64>, lo: usize, hi: usize) -> (r: Vec<u64>)
    requires
        lo <= hi <= v@.len(),
    ensures
        r@ == v@.subrange(lo as int, hi as int),
{
    let mut out: Vec<u64> = Vec::new();
    let mut i: usize = lo;
    while i < hi
        invariant
            lo <= i <= hi,
            hi <= v@.len(),
            out@ == v@.subrange(lo as int, i as int),
        decreases hi - i,
    {
        out.push(v[i]);
        i = i + 1;
        assert(out@ =~= v@.subrange(lo as int, i as int));
    }
    out
}

/// Reading the parts of an assembled vector gives back what was laid out.
pub proof fn lemma_layout_round_trip(
    layout: PublicInputLayout,
    pis: Seq<u64>,
    state: Seq<u64>,
    condition: bool,
    vk: Seq<u64>,
)
    requires
        layout.wf(),
        layout.encodes(pis, state, condition, vk),
    ensures
        layout.state_part(pis) == state,
        layout.vk_part(pis) == vk,
        pis[layout.condition_index()] == 1 <==> condition,
        pis =~= state + seq![flag_value(condition)] + vk,
{
    assert(pis =~= layout.state_part(pis) + seq![pis[layout.condition_index()]] + layout.vk_part(pis));
}

} // verus!
