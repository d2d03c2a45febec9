use escrow_client::state::{authorize, expected_states_vec, parse_state, Action, EscrowState,
    GuardError};

const ALL_STATES: [EscrowState; 6] = [
    EscrowState::Uninitialized,
    EscrowState::Created,
    EscrowState::Initialized,
    EscrowState::Funded,
    EscrowState::Completed,
    EscrowState::Cancelled,
];

const ALL_ACTIONS: [Action; 8] = [
    Action::CreateOffer,
    Action::JoinOffer,
    Action::Fund,
    Action::Confirm,
    Action::ArbiterConfirm,
    Action::ArbiterCancel,
    Action::MutualCancel,
    Action::Close,
];

/// The whitelist of the protocol table, per action.
fn whitelist(action: Action) -> Vec<EscrowState> {
    match action {
        Action::CreateOffer => ALL_STATES.to_vec(),
        Action::JoinOffer => vec![EscrowState::Created],
        Action::Fund => vec![EscrowState::Initialized],
        Action::Confirm => vec![EscrowState::Funded],
        Action::ArbiterConfirm => vec![EscrowState::Funded],
        Action::ArbiterCancel => vec![EscrowState::Funded],
        Action::MutualCancel => vec![EscrowState::Initialized, EscrowState::Funded],
        Action::Close => vec![EscrowState::Completed, EscrowState::Cancelled],
    }
}

#[test]
fn authorize_matches_the_protocol_table_exactly() {
    // Every listed state yields success; every state not listed yields
    // WrongState with the action's whitelist and the actual state.
    for &action in ALL_ACTIONS.iter() {
        let allowed = whitelist(action);
        for &state in ALL_STATES.iter() {
            let r = authorize(state, action);
            if allowed.contains(&state) {
                assert!(r.is_ok(), "{:?} in {:?} must be allowed", action, state);
            } else {
                match r {
                    Err(GuardError::WrongState { expected, actual }) => {
                        assert_eq!(expected, expected_states_vec(action));
                        assert_eq!(actual, state);
                    }
                    Ok(()) => panic!("{:?} in {:?} must be refused", action, state),
                }
            }
        }
    }
}

#[test]
fn create_offer_needs_no_precondition() {
    for &state in ALL_STATES.iter() {
        assert!(authorize(state, Action::CreateOffer).is_ok());
    }
}

#[test]
fn close_reports_both_terminal_states_as_expected() {
    let r = authorize(EscrowState::Funded, Action::Close);
    match r {
        Err(GuardError::WrongState { expected, actual }) => {
            assert_eq!(expected, vec![EscrowState::Completed, EscrowState::Cancelled]);
            assert_eq!(actual, EscrowState::Funded);
        }
        Ok(()) => panic!("Close from Funded must be refused"),
    }
}

#[test]
fn parse_state_covers_exactly_six_bytes() {
    assert_eq!(parse_state(0), Some(EscrowState::Uninitialized));
    assert_eq!(parse_state(1), Some(EscrowState::Created));
    assert_eq!(parse_state(2), Some(EscrowState::Initialized));
    assert_eq!(parse_state(3), Some(EscrowState::Funded));
    assert_eq!(parse_state(4), Some(EscrowState::Completed));
    assert_eq!(parse_state(5), Some(EscrowState::Cancelled));
    for b in 6..=255u8 {
        assert_eq!(parse_state(b), None);
    }
}
