//! Elements of the Goldilocks field, held as canonical `u64` values.
use vstd::prelude::*;

verus! {

/// The order of the Goldilocks field, `2^64 - 2^32 + 1`.
pub const FIELD_ORDER: u64 = 0xffff_ffff_0000_0001;

/// A `u64` stands for a field element when it is below the field order.
pub open spec fn is_field_element(x: u64) -> bool {
    x < FIELD_ORDER
}

/// Every entry of the sequence is a field element.
pub open spec fn all_field_elements(s: Seq<u64>) -> bool {
    forall|i: int| 0 <= i < s.len() ==> is_field_element(#[trigger] s[i])
}

/// Field addition over the integers.
pub open spec fn field_sum(a: int, b: int) -> int {
    (a + b) % (FIELD_ORDER as int)
}

/// Adds two field elements.
pub fn field_add(a: u64, b: u64) -> (r: u64)
    requires
        is_field_element(a),
        is_field_element(b),
    ensures
        r as int == field_sum(a as int, b as int),
        is_field_element(r),
{
    let gap: u64 = FIELD_ORDER - b;
    if a >= gap {
        proof {
            vstd::arithmetic::div_mod::lemma_fundamental_div_mod_converse(
                a + b, FIELD_ORDER as int, 1, a + b - FIELD_ORDER);
        }
        a - gap
    } else {
        proof {
            vstd::arithmetic::div_mod::lemma_fundamental_div_mod_converse(
                a + b, FIELD_ORDER as int, 0, a + b);
        }
        a + b
    }
}

} // verus!
