use cyclic_ivc::chain::{ChainPhase, ProofChain};
use cyclic_ivc::error::{IvcError, StepFailure};
use cyclic_ivc::field::FIELD_ORDER;
use cyclic_ivc::layout::PublicInputLayout;
use cyclic_ivc::step::accumulate;

fn canonical_key() -> Vec<u64> {
    vec![11, 12, 13, 14]
}

fn fresh_chain(initial: Vec<u64>) -> ProofChain {
    let layout = PublicInputLayout::new(2, 4).unwrap();
    ProofChain::new(layout, canonical_key(), initial).unwrap()
}

/// Stands for the backend: the public inputs of the proof that the circuit
/// produces for the chain's next step.
fn prove_next(chain: &ProofChain, delta: u64) -> Vec<u64> {
    let plan = chain.plan(delta);
    chain.layout.assemble(&plan.expected_state, plan.condition, &chain.canonical_vk).unwrap()
}

#[test]
fn accumulate_chain_of_three_steps() {
    let mut chain = fresh_chain(vec![0, 0]);
    assert_eq!(chain.phase(), ChainPhase::Base);
    for (i, delta) in [5u64, 7, 3].into_iter().enumerate() {
        let produced = prove_next(&chain, delta);
        assert_eq!(chain.advance(delta, &produced, true), Ok(i as u64));
    }
    assert_eq!(chain.phase(), ChainPhase::Step(3));
    assert_eq!(chain.head_state(), Some(vec![15, 3]));
    let head = chain.head.as_ref().unwrap();
    assert_eq!(head.step, 2);
    assert_eq!(head.public_inputs[0], 15);
    assert_eq!(head.public_inputs[1], 3);
    assert_eq!(head.public_inputs[2], 1);
}

#[test]
fn accumulate_step_values() {
    assert_eq!(accumulate(false, &vec![40, 40], &vec![0, 0], 5), vec![5, 1]);
    assert_eq!(accumulate(true, &vec![5, 1], &vec![0, 0], 7), vec![12, 2]);
    assert_eq!(accumulate(true, &vec![FIELD_ORDER - 1, 2], &vec![0, 0], 3), vec![2, 3]);
}

#[test]
fn base_plan_uses_the_placeholder() {
    let chain = fresh_chain(vec![4, 0]);
    let plan = chain.plan(5);
    assert_eq!(plan.step, 0);
    assert!(!plan.condition);
    assert_eq!(plan.inner_public_inputs, vec![4, 0, 0, 11, 12, 13, 14]);
    assert_eq!(plan.expected_state, vec![9, 1]);
}

#[test]
fn base_case_accepted_whatever_the_placeholder_holds() {
    let mut chain = fresh_chain(vec![0, 0]);
    // the base step's output takes the initial state, not the placeholder's
    let a = accumulate(false, &vec![77, 5], &vec![0, 0], 5);
    let b = accumulate(false, &vec![3, 1000], &vec![0, 0], 5);
    assert_eq!(a, b);
    let produced = chain.layout.assemble(&a, false, &canonical_key()).unwrap();
    assert_eq!(chain.advance(5, &produced, true), Ok(0));
    assert_eq!(chain.head_state(), Some(vec![5, 1]));
}

#[test]
fn later_step_plan_uses_the_head() {
    let mut chain = fresh_chain(vec![0, 0]);
    let produced = prove_next(&chain, 5);
    chain.advance(5, &produced, true).unwrap();
    let plan = chain.plan(7);
    assert_eq!(plan.step, 1);
    assert!(plan.condition);
    assert_eq!(plan.inner_public_inputs, produced);
    assert_eq!(plan.expected_state, vec![12, 2]);
}

#[test]
fn failed_step_leaves_the_chain_unchanged() {
    let mut chain = fresh_chain(vec![0, 0]);
    let produced = prove_next(&chain, 5);
    chain.advance(5, &produced, true).unwrap();

    let wrong_state = chain.layout.assemble(&vec![13, 2], true, &canonical_key()).unwrap();
    assert_eq!(
        chain.advance(7, &wrong_state, true),
        Err(StepFailure { step: 1, error: IvcError::ConstraintUnsatisfied })
    );
    let wrong_flag = chain.layout.assemble(&vec![12, 2], false, &canonical_key()).unwrap();
    assert_eq!(
        chain.advance(7, &wrong_flag, true),
        Err(StepFailure { step: 1, error: IvcError::ConstraintUnsatisfied })
    );
    let foreign = chain.layout.assemble(&vec![12, 2], true, &vec![11, 12, 13, 15]).unwrap();
    assert_eq!(
        chain.advance(7, &foreign, true),
        Err(StepFailure { step: 1, error: IvcError::VerifierDataMismatch })
    );
    let good = prove_next(&chain, 7);
    assert_eq!(
        chain.advance(7, &good, false),
        Err(StepFailure { step: 1, error: IvcError::InvalidProof })
    );
    assert_eq!(chain.head_state(), Some(vec![5, 1]));
    assert_eq!(chain.phase(), ChainPhase::Step(1));
    assert_eq!(chain.advance(7, &good, true), Ok(1));
    assert_eq!(chain.head_state(), Some(vec![12, 2]));
}

#[test]
fn chain_with_wrong_shapes_is_refused() {
    let layout = PublicInputLayout::new(3, 4).unwrap();
    assert_eq!(ProofChain::new(layout, canonical_key(), vec![0, 0]).err(), Some(IvcError::ShapeMismatch));
    let layout = PublicInputLayout::new(2, 4).unwrap();
    assert_eq!(ProofChain::new(layout, vec![1, 2], vec![0, 0]).err(), Some(IvcError::ShapeMismatch));
    assert_eq!(ProofChain::new(layout, canonical_key(), vec![0]).err(), Some(IvcError::ShapeMismatch));
}
