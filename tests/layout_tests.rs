use cyclic_ivc::consistency::check_consistency;
use cyclic_ivc::error::IvcError;
use cyclic_ivc::field::{field_add, FIELD_ORDER};
use cyclic_ivc::layout::{copy_range, PublicInputLayout};
use cyclic_ivc::registry::LayoutBuilder;

fn key(n: usize) -> Vec<u64> {
    (0..n as u64).map(|i| 100 + i).collect()
}

#[test]
fn field_add_small_values() {
    assert_eq!(field_add(5, 7), 12);
    assert_eq!(field_add(0, 0), 0);
}

#[test]
fn field_add_wraps_at_the_order() {
    assert_eq!(field_add(FIELD_ORDER - 1, 1), 0);
    assert_eq!(field_add(FIELD_ORDER - 1, FIELD_ORDER - 1), FIELD_ORDER - 2);
    assert_eq!(field_add(FIELD_ORDER - 3, 5), 2);
}

#[test]
fn layout_slots_follow_state_flag_key_order() {
    let l = PublicInputLayout::new(2, 68).unwrap();
    assert_eq!(l.num_public_inputs(), 71);
    assert_eq!(l.state_slot(1), 1);
    assert_eq!(l.condition_slot(), 2);
    assert_eq!(l.verifier_key_slot(0), 3);
    assert_eq!(l.verifier_key_slot(67), 70);
}

#[test]
fn layout_too_large_is_refused() {
    assert!(PublicInputLayout::new(usize::MAX, 0).is_none());
    assert!(PublicInputLayout::new(3, usize::MAX - 3).is_none());
    assert!(PublicInputLayout::new(3, usize::MAX - 4).is_some());
}

#[test]
fn layout_assemble_and_read_back() {
    let l = PublicInputLayout::new(2, 3).unwrap();
    let pis = l.assemble(&vec![9, 4], true, &vec![7, 8, 6]).unwrap();
    assert_eq!(pis, vec![9, 4, 1, 7, 8, 6]);
    assert_eq!(l.state_of(&pis), Some(vec![9, 4]));
    assert_eq!(l.condition_of(&pis), Some(true));
    assert_eq!(l.verifier_key_of(&pis), Some(vec![7, 8, 6]));
    let base = l.assemble(&vec![0, 0], false, &vec![7, 8, 6]).unwrap();
    assert_eq!(l.condition_of(&base), Some(false));
}

#[test]
fn layout_wrong_lengths() {
    let l = PublicInputLayout::new(2, 3).unwrap();
    assert_eq!(l.assemble(&vec![1], true, &vec![7, 8, 6]), None);
    assert_eq!(l.assemble(&vec![1, 2], true, &vec![7, 8]), None);
    assert_eq!(l.state_of(&vec![1, 2, 3]), None);
    assert_eq!(l.verifier_key_of(&vec![1, 2, 3, 4, 5, 6, 7]), None);
    assert_eq!(l.condition_of(&vec![1, 2, 5, 4, 5, 6]), None);
}

#[test]
fn copy_range_takes_the_slice() {
    assert_eq!(copy_range(&vec![1, 2, 3, 4], 1, 3), vec![2, 3]);
    assert_eq!(copy_range(&vec![1, 2], 2, 2), Vec::<u64>::new());
}

#[test]
fn registration_in_order() {
    let mut b = LayoutBuilder::new();
    assert_eq!(b.register_state(), Ok(0));
    assert_eq!(b.register_state(), Ok(1));
    assert_eq!(b.register_condition(), Ok(2));
    assert_eq!(b.register_verifier_key(68), Ok(3));
    let l = b.finish().unwrap();
    assert_eq!(l, PublicInputLayout::new(2, 68).unwrap());
}

#[test]
fn verifier_key_registered_twice_is_refused() {
    let mut b = LayoutBuilder::new();
    b.register_state().unwrap();
    b.register_condition().unwrap();
    b.register_verifier_key(68).unwrap();
    let before = b;
    assert_eq!(b.register_verifier_key(68), Err(IvcError::VerifierKeyAlreadyRegistered));
    assert_eq!(b, before);
}

#[test]
fn registration_out_of_order_is_a_shape_mismatch() {
    let mut b = LayoutBuilder::new();
    assert_eq!(b.register_verifier_key(68), Err(IvcError::ShapeMismatch));
    assert_eq!(b.finish(), Err(IvcError::ShapeMismatch));
    b.register_condition().unwrap();
    assert_eq!(b.register_state(), Err(IvcError::ShapeMismatch));
    assert_eq!(b.register_condition(), Err(IvcError::ShapeMismatch));
}

#[test]
fn consistency_accepts_the_canonical_key() {
    let l = PublicInputLayout::new(2, 4).unwrap();
    let vk = key(4);
    let pis = l.assemble(&vec![15, 3], true, &vk).unwrap();
    assert_eq!(check_consistency(&l, &pis, &vk, true), Ok(()));
}

#[test]
fn consistency_errors_by_kind() {
    let l = PublicInputLayout::new(2, 4).unwrap();
    let vk = key(4);
    let pis = l.assemble(&vec![15, 3], true, &vk).unwrap();
    assert_eq!(check_consistency(&l, &pis, &vk, false), Err(IvcError::InvalidProof));
    assert_eq!(check_consistency(&l, &pis[..6].to_vec(), &vk, true), Err(IvcError::ShapeMismatch));
    assert_eq!(check_consistency(&l, &pis, &key(3), true), Err(IvcError::ShapeMismatch));
}

#[test]
fn tampering_with_any_public_input_is_detected() {
    let l = PublicInputLayout::new(2, 4).unwrap();
    let vk = key(4);
    let pis = l.assemble(&vec![15, 3], true, &vk).unwrap();
    assert_eq!(check_consistency(&l, &pis, &vk, true), Ok(()));
    for i in 0..pis.len() {
        let mut t = pis.clone();
        t[i] ^= 1;
        // the backend no longer verifies the changed proof
        assert!(check_consistency(&l, &t, &vk, false).is_err());
        if i >= 3 {
            assert_eq!(check_consistency(&l, &t, &vk, true), Err(IvcError::VerifierDataMismatch));
        }
    }
}

#[test]
fn proof_of_another_circuit_is_a_verifier_data_mismatch() {
    let l = PublicInputLayout::new(2, 4).unwrap();
    let vk = key(4);
    let other = vec![100, 101, 102, 999];
    let pis = l.assemble(&vec![15, 3], true, &other).unwrap();
    assert_eq!(check_consistency(&l, &pis, &vk, true), Err(IvcError::VerifierDataMismatch));
    assert_eq!(check_consistency(&l, &pis, &vk, false), Err(IvcError::VerifierDataMismatch));
}

#[test]
fn verification_is_idempotent() {
    let l = PublicInputLayout::new(2, 4).unwrap();
    let vk = key(4);
    let pis = l.assemble(&vec![15, 3], true, &vk).unwrap();
    let (pis0, vk0) = (pis.clone(), vk.clone());
    for _ in 0..3 {
        assert_eq!(check_consistency(&l, &pis, &vk, true), Ok(()));
    }
    assert_eq!(pis, pis0);
    assert_eq!(vk, vk0);
}
