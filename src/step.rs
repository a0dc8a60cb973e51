//! The state transition of the accumulating step circuit: the state is
//! `[value, counter]`; a step adds `delta` to the value and one to the
//! counter, starting from the inner proof's state in the recursive case and
//! from the caller's initial state in the base case.
use crate::field::{all_field_elements, field_add, field_sum, is_field_element};
use vstd::prelude::*;

verus! {

/// The number of state fields: the accumulated value and the step counter.
pub const STATE_LEN: usize = 2;

/// The slot of the accumulated value within the state.
pub const VALUE_SLOT: usize = 0;

/// The slot of the step counter within the state.
pub const COUNTER_SLOT: usize = 1;

/// A state: two field elements.
pub open spec fn is_state(s: Seq<u64>) -> bool {
    s.len() == STATE_LEN && all_field_elements(s)
}

/// The input state of a step: the inner proof's output in the recursive case,
/// the external initial state in the base case.
pub open spec fn select_state(condition: bool, inner: Seq<u64>, initial: Seq<u64>) -> Seq<u64> {
    if condition {
        inner
    } else {
        initial
    }
}

/// The state a step outputs from input state `input`.
pub open spec fn accumulate_spec(input: Seq<u64>, delta: u64) -> Seq<u64> {
    seq![
        field_sum(input[VALUE_SLOT as int] as int, delta as int) as u64,
        field_sum(input[COUNTER_SLOT as int] as int, 1) as u64,
    ]
}

/// The output state of one step.
pub fn accumulate(condition: bool, inner_state: &Vec<u64>, initial_state: &Vec<u64>, delta: u64) -> (r:
    Vec<u64>)
    requires
        is_state(inner_state@),
        is_state(initial_state@),
        is_field_element(delta),
    ensures
        r@ == accumulate_spec(select_state(condition, inner_state@, initial_state@), delta),
        is_state(r@),
{
    let input = if condition {
        inner_state
    } else {
        initial_state
    };
    let value = field_add(input[VALUE_SLOT], delta);
    let counter = field_add(input[COUNTER_SLOT], 1);
    let r = vec![value, counter];
    assert(r@ =~= accumulate_spec(select_state(condition, inner_state@, initial_state@), delta));
    r
}

/// The sum of a sequence of field elements, over the integers.
pub open spec fn sum_of(deltas: Seq<u64>) -> int
    decreases deltas.len(),
{
    if deltas.len() == 0 {
        0
    } else {
        sum_of(deltas.drop_last()) + deltas.last()
    }
}

/// The state after a base step with `deltas[0]` and a recursive step with each
/// further entry, starting from `initial`.
pub open spec fn chain_state(initial: Seq<u64>, deltas: Seq<u64>) -> Seq<u64>
    decreases deltas.len(),
{
    if deltas.len() == 0 {
        initial
    } else {
        accumulate_spec(chain_state(initial, deltas.drop_last()), deltas.last())
    }
}

/// After `n` steps the value is the initial value plus every delta, and the
/// counter the initial counter plus `n`, in the field.
pub proof fn lemma_chain_accumulates(initial: Seq<u64>, deltas: Seq<u64>)
    requires
        is_state(initial),
        all_field_elements(deltas),
    ensures
        is_state(chain_state(initial, deltas)),
        chain_state(initial, deltas)[VALUE_SLOT as int] == field_sum(
            initial[VALUE_SLOT as int] as int,
            sum_of(deltas),
        ),
        chain_state(initial, deltas)[COUNTER_SLOT as int] == field_sum(
            initial[COUNTER_SLOT as int] as int,
            deltas.len() as int,
        ),
    decreases deltas.len(),
{
    let p = crate::field::FIELD_ORDER as int;
    if deltas.len() == 0 {
        vstd::arithmetic::div_mod::lemma_small_mod(initial[0] as nat, p as nat);
        vstd::arithmetic::div_mod::lemma_small_mod(initial[1] as nat, p as nat);
    } else {
        let rest = deltas.drop_last();
        assert(all_field_elements(rest)) by {
            assert forall|i: int| 0 <= i < rest.len() implies is_field_element(#[trigger] rest[i]) by {
                assert(rest[i] == deltas[i]);
            }
        }
        lemma_chain_accumulates(initial, rest);
        let prev = chain_state(initial, rest);
        let d = deltas.last();
        vstd::arithmetic::div_mod::lemma_add_mod_noop(initial[0] as int + sum_of(rest), d as int, p);
        vstd::arithmetic::div_mod::lemma_small_mod(d as nat, p as nat);
        vstd::arithmetic::div_mod::lemma_add_mod_noop(initial[1] as int + rest.len(), 1, p);
        vstd::arithmetic::div_mod::lemma_small_mod(1, p as nat);
        vstd::arithmetic::div_mod::lemma_mod_bound(prev[0] as int + d, p);
        vstd::arithmetic::div_mod::lemma_mod_bound(prev[1] as int + 1, p);
        let s = chain_state(initial, deltas);
        assert(s[0] == field_sum(prev[0] as int, d as int));
        assert(s[1] == field_sum(prev[1] as int, 1));
    }
}

} // verus!
