use pseudo_bundler::simulation::FORBIDDEN_ACCESS_REASON;
use pseudo_bundler::{
    check_admission, detect_forbidden_access, is_banned, simulation_failure, step, Action, Address,
    BundlerError, Event, ExecutionResult, Purpose, SimulationError, SimulationResult, Stage,
    UserOperation,
};

const GWEI: u128 = 1_000_000_000;

fn operation() -> UserOperation {
    UserOperation {
        sender: Address { bytes: [0xAA; 20] },
        nonce: 0,
        init_code: vec![],
        call_data: vec![],
        call_gas_limit: 100_000,
        verification_gas_limit: 200_000,
        pre_verification_gas: 50_000,
        max_fee_per_gas: 100 * GWEI,
        max_priority_fee_per_gas: 2 * GWEI,
        paymaster_and_data: vec![],
        signature: vec![],
    }
}

fn validated(sim: SimulationResult) -> Event {
    Event::ValidationSimulated { outcome: Ok(sim) }
}

#[test]
fn estimate_run_goes_through_every_stage() {
    let op = operation();
    let (stage, action) = step(&op, Purpose::Estimate, Stage::Received, Event::Start);
    assert!(matches!(stage, Stage::Validating));
    assert_eq!(action, Action::SimulateValidation);
    let sim = SimulationResult { verification_gas: 70_000, revert_reason: None, forbidden_access: false };
    let (stage, action) = step(&op, Purpose::Estimate, stage, validated(sim));
    assert!(matches!(stage, Stage::Estimating { verification_gas: 70_000 }));
    assert_eq!(action, Action::SimulateHandleOp);
    let exec = ExecutionResult { paid: 150_000 * 22 * GWEI, pre_op_gas: 50_000, success: true };
    let event = Event::HandleOpSimulated { outcome: Ok(exec), base_fee: 20 * GWEI };
    let (stage, action) = step(&op, Purpose::Estimate, stage, event);
    assert_eq!(action, Action::Finish);
    match stage {
        Stage::Estimated { estimation } => {
            assert_eq!(estimation.pre_verification_gas, 41_940);
            assert_eq!(estimation.verification_gas_limit, 70_000);
            assert_eq!(estimation.call_gas_limit, 121_000);
        }
        other => panic!("unexpected {:?}", other),
    }
}

#[test]
fn send_run_stops_at_admission() {
    let op = operation();
    let sim = SimulationResult { verification_gas: 70_000, revert_reason: None, forbidden_access: false };
    let (stage, action) = step(&op, Purpose::Send, Stage::Validating, validated(sim));
    assert!(matches!(stage, Stage::ValidSimulated { verification_gas: 70_000 }));
    assert_eq!(action, Action::SubmitToMempool);
}

#[test]
fn send_with_unpaid_prefund_is_rejected_with_its_reason() {
    let op = operation();
    let sim = SimulationResult {
        verification_gas: 70_000,
        revert_reason: Some("AA21 didn't pay prefund".to_string()),
        forbidden_access: false,
    };
    let (stage, action) = step(&op, Purpose::Send, Stage::Validating, validated(sim));
    assert_eq!(action, Action::Finish);
    match stage {
        Stage::Rejected { reason } => assert_eq!(reason, "AA21 didn't pay prefund"),
        other => panic!("unexpected {:?}", other),
    }
}

#[test]
fn forbidden_access_rejects_both_estimate_and_send() {
    let op = operation();
    for purpose in [Purpose::Estimate, Purpose::Send] {
        let sim = SimulationResult { verification_gas: 70_000, revert_reason: None, forbidden_access: true };
        let (stage, action) = step(&op, purpose, Stage::Validating, validated(sim));
        assert_eq!(action, Action::Finish);
        match stage {
            Stage::Rejected { reason } => assert_eq!(reason, FORBIDDEN_ACCESS_REASON),
            other => panic!("unexpected {:?}", other),
        }
    }
}

#[test]
fn transport_failure_is_retryable() {
    let op = operation();
    let event = Event::ValidationSimulated {
        outcome: Err(SimulationError::Transport { message: "timed out".to_string() }),
    };
    let (stage, action) = step(&op, Purpose::Estimate, Stage::Validating, event);
    assert_eq!(action, Action::Finish);
    match stage {
        Stage::Failed { error } => {
            assert!(error.is_retryable());
            assert_eq!(error.code(), -32603);
            assert_eq!(error.message(), "timed out");
        }
        other => panic!("unexpected {:?}", other),
    }
}

#[test]
fn malformed_handle_op_answer_fails_the_estimate() {
    let op = operation();
    let event = Event::HandleOpSimulated {
        outcome: Err(SimulationError::Malformed { message: "bad return data".to_string() }),
        base_fee: 20 * GWEI,
    };
    let (stage, _) = step(&op, Purpose::Estimate, Stage::Estimating { verification_gas: 1 }, event);
    match stage {
        Stage::Failed { error: BundlerError::EstimationCompute { message } } => assert_eq!(message, "bad return data"),
        other => panic!("unexpected {:?}", other),
    }
}

#[test]
fn negative_call_gas_fails_the_estimate() {
    let op = operation();
    let exec = ExecutionResult { paid: 10 * 22 * GWEI, pre_op_gas: 50_000, success: true };
    let event = Event::HandleOpSimulated { outcome: Ok(exec), base_fee: 20 * GWEI };
    let (stage, action) = step(&op, Purpose::Estimate, Stage::Estimating { verification_gas: 1 }, event);
    assert_eq!(action, Action::Finish);
    match stage {
        Stage::Failed { error: BundlerError::EstimationCompute { message } } => {
            assert_eq!(message, "call gas limit would be negative")
        }
        other => panic!("unexpected {:?}", other),
    }
}

#[test]
fn oversized_operation_fails_the_estimate_step() {
    let mut op = operation();
    op.paymaster_and_data = vec![0u8; 0x8000_0000];
    let exec = ExecutionResult { paid: 150_000 * 22 * GWEI, pre_op_gas: 50_000, success: true };
    let event = Event::HandleOpSimulated { outcome: Ok(exec), base_fee: 20 * GWEI };
    let (stage, action) = step(&op, Purpose::Estimate, Stage::Estimating { verification_gas: 1 }, event);
    assert_eq!(action, Action::Finish);
    match stage {
        Stage::Failed { error: BundlerError::EstimationCompute { message } } => {
            assert_eq!(message, "operation is too large to encode")
        }
        other => panic!("unexpected {:?}", other),
    }
}

#[test]
fn two_runs_with_the_same_answers_reach_the_same_stage() {
    let op = operation();
    let exec = ExecutionResult { paid: 150_000 * 22 * GWEI, pre_op_gas: 50_000, success: true };
    let run = || {
        let event = Event::HandleOpSimulated { outcome: Ok(exec), base_fee: 20 * GWEI };
        step(&op.clone(), Purpose::Estimate, Stage::Estimating { verification_gas: 70_000 }, event)
    };
    let (first, first_action) = run();
    let (second, second_action) = run();
    assert_eq!(first_action, second_action);
    match (first, second) {
        (Stage::Estimated { estimation: a }, Stage::Estimated { estimation: b }) => assert_eq!(a, b),
        other => panic!("unexpected {:?}", other),
    }
}

#[test]
fn event_out_of_turn_leaves_the_stage() {
    let op = operation();
    let (stage, action) = step(&op, Purpose::Estimate, Stage::Received, validated(SimulationResult {
        verification_gas: 1,
        revert_reason: None,
        forbidden_access: false,
    }));
    assert!(matches!(stage, Stage::Received));
    assert_eq!(action, Action::Finish);
}

#[test]
fn admission_decision() {
    let ok = SimulationResult { verification_gas: 5, revert_reason: None, forbidden_access: false };
    assert_eq!(check_admission(&ok).unwrap(), 5);
    let bad = SimulationResult { verification_gas: 5, revert_reason: None, forbidden_access: true };
    let e = check_admission(&bad).unwrap_err();
    assert_eq!(e.code(), -32500);
    assert!(!e.is_retryable());
}

#[test]
fn failure_mapping() {
    let t = simulation_failure(&SimulationError::Transport { message: "down".to_string() });
    assert!(matches!(t, BundlerError::Transport { .. }));
    let m = simulation_failure(&SimulationError::Malformed { message: "junk".to_string() });
    assert_eq!(m.code(), -32000);
}

#[test]
fn storage_of_the_sender_only_is_allowed() {
    let sender = Address { bytes: [0xAA; 20] };
    assert!(!detect_forbidden_access(&sender, &vec![sender, sender], &vec![0x60, 0x54, 0x55]));
}

#[test]
fn storage_of_another_account_is_forbidden() {
    let sender = Address { bytes: [0xAA; 20] };
    let other = Address { bytes: [0xBB; 20] };
    assert!(detect_forbidden_access(&sender, &vec![sender, other], &vec![]));
}

#[test]
fn banned_opcodes_are_forbidden() {
    let sender = Address { bytes: [0xAA; 20] };
    assert!(detect_forbidden_access(&sender, &vec![], &vec![0x60, 0x3A]));
    assert!(is_banned(0x42));
    assert!(!is_banned(0x54));
}

#[test]
fn address_comparison() {
    let a = Address { bytes: [1; 20] };
    let mut b = a;
    assert!(a.same_as(&b));
    b.bytes[19] = 2;
    assert!(!a.same_as(&b));
    assert!(Address::zero().bytes.iter().all(|x| *x == 0));
}
