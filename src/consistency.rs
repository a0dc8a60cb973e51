//! The check run on every produced proof before it is accepted: its embedded
//! verifier-key commitment must be the canonical key, and the proof must
//! verify against the canonical circuit.
use crate::error::IvcError;
use crate::layout::PublicInputLayout;
use vstd::prelude::*;

verus! {

/// The verdict on a proof with public inputs `pis`, given the canonical
/// verifier key and whether the backend verified the proof.
pub open spec fn consistency_verdict(
    layout: PublicInputLayout,
    pis: Seq<u64>,
    canonical_vk: Seq<u64>,
    verified: bool,
) -> Result<(), IvcError> {
    if pis.len() != layout.total() || canonical_vk.len() != layout.vk_len {
        Err(IvcError::ShapeMismatch)
    } else if layout.vk_part(pis) != canonical_vk {
        Err(IvcError::VerifierDataMismatch)
    } else if !verified {
        Err(IvcError::InvalidProof)
    } else {
        Ok(())
    }
}

/// Whether the key slots of `pis` hold exactly `canonical_vk`.
pub fn verifier_key_matches(layout: &PublicInputLayout, pis: &Vec<u64>, canonical_vk: &Vec<u64>) -> (r:
    bool)
    requires
        layout.wf(),
        pis@.len() == layout.total(),
        canonical_vk@.len() == layout.vk_len,
    ensures
        r == (layout.vk_part(pis@) == canonical_vk@),
{
    let start = layout.num_state + 1;
    let mut j: usize = 0;
    while j < canonical_vk.len()
        invariant
            j <= canonical_vk@.len() == layout.vk_len,
            start == layout.vk_start(),
            layout.wf(),
            pis@.len() == layout.total(),
            forall|k: int| 0 <= k < j ==> pis@[start + k] == canonical_vk@[k],
        decreases canonical_vk@.len() - j,
    {
        if pis[start + j] != canonical_vk[j] {
            assert(layout.vk_part(pis@)[j as int] != canonical_vk@[j as int]);
            return false;
        }
        j = j + 1;
    }
    assert(layout.vk_part(pis@) =~= canonical_vk@);
    true
}

/// Checks a produced proof: `ShapeMismatch` where its public inputs or the
/// key have the wrong length, `VerifierDataMismatch` where its embedded key
/// is not the canonical one, `InvalidProof` where the backend did not verify
/// it, and `Ok` otherwise.
pub fn check_consistency(
    layout: &PublicInputLayout,
    pis: &Vec<u64>,
    canonical_vk: &Vec<u64>,
    verified: bool,
) -> (r: Result<(), IvcError>)
    requires
        layout.wf(),
    ensures
        r == consistency_verdict(*layout, pis@, canonical_vk@, verified),
{
    if pis.len() != layout.num_public_inputs() || canonical_vk.len() != layout.vk_len {
        Err(IvcError::ShapeMismatch)
    } else if !verifier_key_matches(layout, pis, canonical_vk) {
        Err(IvcError::VerifierDataMismatch)
    } else if !verified {
        Err(IvcError::InvalidProof)
    } else {
        Ok(())
    }
}

/// Changing one public input of an accepted proof gets it rejected, unless the
/// change lies outside the key slots and the backend still verifies the
/// changed proof; a change inside the key slots is a `VerifierDataMismatch`.
pub proof fn lemma_tampering_detected(
    layout: PublicInputLayout,
    pis: Seq<u64>,
    canonical_vk: Seq<u64>,
    i: int,
    v: u64,
    verified_after: bool,
)
    requires
        layout.wf(),
        consistency_verdict(layout, pis, canonical_vk, true) is Ok,
        0 <= i < pis.len(),
        v != pis[i],
    ensures
        consistency_verdict(layout, pis.update(i, v), canonical_vk, verified_after) is Ok ==> (i
            < layout.vk_start() && verified_after),
        layout.vk_start() <= i ==> consistency_verdict(layout, pis.update(i, v), canonical_vk, verified_after)
            == Err::<(), IvcError>(IvcError::VerifierDataMismatch),
        !verified_after ==> consistency_verdict(layout, pis.update(i, v), canonical_vk, verified_after) is Err,
{
    let t = pis.update(i, v);
    if layout.vk_start() <= i {
        assert(layout.vk_part(t)[i - layout.vk_start()] != layout.vk_part(pis)[i - layout.vk_start()]);
    }
}

/// A proof whose embedded key differs from the canonical key is a
/// `VerifierDataMismatch`, whatever its shape and whether it verifies.
pub proof fn lemma_foreign_key_rejected(
    layout: PublicInputLayout,
    pis: Seq<u64>,
    canonical_vk: Seq<u64>,
    verified: bool,
)
    requires
        layout.wf(),
        pis.len() == layout.total(),
        canonical_vk.len() == layout.vk_len,
        layout.vk_part(pis) != canonical_vk,
    ensures
        consistency_verdict(layout, pis, canonical_vk, verified) == Err::<(), IvcError>(
            IvcError::VerifierDataMismatch,
        ),
{
}

/// Two verifications of one accepted proof against one key agree: the verdict
/// is a function of the proof's public inputs, the key and the backend's
/// answer, none of which it changes.
pub proof fn lemma_verification_idempotent(
    layout: PublicInputLayout,
    pis: Seq<u64>,
    canonical_vk: Seq<u64>,
    first: Result<(), IvcError>,
    second: Result<(), IvcError>,
)
    requires
        first == consistency_verdict(layout, pis, canonical_vk, true),
        second == consistency_verdict(layout, pis, canonical_vk, true),
        first is Ok,
    ensures
        second is Ok,
        first == second,
{
}

} // verus!
