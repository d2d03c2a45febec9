use escrow_client::codec::LayoutError;
use escrow_client::pipeline::{plan_close, plan_create_offer, plan_fund, plan_join_offer,
    plan_mutual_cancel, submission_gate, DryRunOutcome, PlanError};
use escrow_client::state::{EscrowState, GuardError};

fn key(fill: u8) -> [u8; 32] {
    [fill; 32]
}

fn buffer_in_state(state_byte: u8) -> Vec<u8> {
    let mut b = vec![0u8; 106];
    b[104] = state_byte;
    b
}

#[test]
fn join_offer_flow_builds_from_created() {
    // Scenario: a record in Created passes the guard, and the instruction
    // carries opcode 1 with the seller's key as its 32-byte payload.
    let data = buffer_in_state(1);
    let seller = key(7);
    let p = plan_join_offer(&data, &seller, &key(2), &key(3)).unwrap();
    assert_eq!(p.data[0], 1);
    assert_eq!(p.data.len(), 33);
    assert_eq!(&p.data[1..33], &seller);
}

#[test]
fn join_offer_flow_refuses_other_states() {
    for state_byte in [0u8, 2, 3, 4, 5] {
        let data = buffer_in_state(state_byte);
        let r = plan_join_offer(&data, &key(7), &key(2), &key(3));
        assert!(matches!(r, Err(PlanError::Guard(_))));
    }
}

#[test]
fn close_flow_refuses_funded_and_builds_nothing() {
    // Scenario: Close on a Funded record fails at the guard with the two
    // terminal states as expected and Funded as actual; no instruction
    // comes back.
    let data = buffer_in_state(3);
    let r = plan_close(&data, &key(1), &key(2), &key(3));
    match r {
        Err(PlanError::Guard(GuardError::WrongState { expected, actual })) => {
            assert_eq!(expected, vec![EscrowState::Completed, EscrowState::Cancelled]);
            assert_eq!(actual, EscrowState::Funded);
        }
        other => panic!("expected a guard error, got {:?}", other),
    }
}

#[test]
fn close_flow_builds_from_terminal_states() {
    for state_byte in [4u8, 5] {
        let data = buffer_in_state(state_byte);
        let p = plan_close(&data, &key(1), &key(2), &key(3)).unwrap();
        assert_eq!(p.data, vec![6u8]);
    }
}

#[test]
fn fund_flow_only_from_initialized() {
    let p = plan_fund(&buffer_in_state(2), &key(1), &key(2), &key(3), &key(4)).unwrap();
    assert_eq!(p.data, vec![2u8]);
    assert!(matches!(
        plan_fund(&buffer_in_state(1), &key(1), &key(2), &key(3), &key(4)),
        Err(PlanError::Guard(_))
    ));
}

#[test]
fn mutual_cancel_flow_from_initialized_or_funded() {
    for state_byte in [2u8, 3] {
        let data = buffer_in_state(state_byte);
        let p = plan_mutual_cancel(&data, &key(1), &key(2), &key(3), &key(4), &key(5)).unwrap();
        assert_eq!(p.data, vec![8u8]);
    }
    assert!(matches!(
        plan_mutual_cancel(&buffer_in_state(4), &key(1), &key(2), &key(3), &key(4), &key(5)),
        Err(PlanError::Guard(_))
    ));
}

#[test]
fn flows_propagate_layout_errors() {
    let short = vec![0u8; 50];
    assert!(matches!(
        plan_join_offer(&short, &key(1), &key(2), &key(3)),
        Err(PlanError::Layout(LayoutError::TooShort { len: 50 }))
    ));
    let bad_state = {
        let mut b = vec![0u8; 106];
        b[104] = 9;
        b
    };
    assert!(matches!(
        plan_close(&bad_state, &key(1), &key(2), &key(3)),
        Err(PlanError::Layout(LayoutError::InvalidState { byte: 9 }))
    ));
}

#[test]
fn create_offer_plan_allocates_and_initializes() {
    let (buyer, escrow, vault, program, arbiter) = (key(1), key(2), key(3), key(4), key(5));
    let plan = plan_create_offer(&buyer, &escrow, &vault, &program, 500, &arbiter, 1_200_000);
    assert_eq!(plan.allocate.from, buyer);
    assert_eq!(plan.allocate.to, escrow);
    assert_eq!(plan.allocate.lamports, 1_200_000);
    assert_eq!(plan.allocate.space, 106);
    assert_eq!(plan.allocate.owner, program);
    assert_eq!(plan.initialize.data[0], 0);
    assert_eq!(&plan.initialize.data[1..9], &500u64.to_le_bytes());
    assert_eq!(&plan.initialize.data[9..41], &arbiter);
}

#[test]
fn dry_run_error_blocks_submission() {
    // A dry run that reported any diagnostic error must not reach submit.
    let outcome = DryRunOutcome {
        logs: vec!["log entry".to_string()],
        error: Some("custom program error".to_string()),
    };
    let r = submission_gate(&outcome);
    match r {
        Err(e) => assert_eq!(e.detail, "custom program error"),
        Ok(()) => panic!("a failing dry run must block submission"),
    }
}

#[test]
fn clean_dry_run_allows_submission() {
    let outcome = DryRunOutcome { logs: Vec::new(), error: None };
    assert!(submission_gate(&outcome).is_ok());
}
