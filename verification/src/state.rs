//! Escrow lifecycle states, protocol actions, and the state-machine guard
//! that authorizes an action against the state read from the ledger.

use vstd::prelude::*;

verus! {

/// Lifecycle state of an escrow record, as stored in the record's
/// single-byte discriminant field.
#[derive(Clone, Copy, Debug, PartialEq, Eq, Structural)]
pub enum EscrowState {
    Uninitialized,
    Created,
    Initialized,
    Funded,
    Completed,
    Cancelled,
}

/// The protocol actions a caller can request.
#[derive(Clone, Copy, Debug, PartialEq, Eq, Structural)]
pub enum Action {
    CreateOffer,
    JoinOffer,
    Fund,
    Confirm,
    ArbiterConfirm,
    ArbiterCancel,
    MutualCancel,
    Close,
}

/// The state encoded by a discriminant byte in `0..=5`.
pub open spec fn state_of_byte(b: u8) -> EscrowState
    recommends
        b <= 5,
{
    if b == 0 {
        EscrowState::Uninitialized
    } else if b == 1 {
        EscrowState::Created
    } else if b == 2 {
        EscrowState::Initialized
    } else if b == 3 {
        EscrowState::Funded
    } else if b == 4 {
        EscrowState::Completed
    } else {
        EscrowState::Cancelled
    }
}

impl EscrowState {
    /// The spec-level label of this state, for diagnostics.
    pub open spec fn spec_label(self) -> Seq<char> {
        match self {
            EscrowState::Uninitialized => "Uninitialized"@,
            EscrowState::Created => "Created"@,
            EscrowState::Initialized => "Initialized"@,
            EscrowState::Funded => "Funded"@,
            EscrowState::Completed => "Completed"@,
            EscrowState::Cancelled => "Cancelled"@,
        }
    }

    /// Human-readable label of this state.
    pub fn label(&self) -> (r: String)
        ensures
            r@ == self.spec_label(),
    {
        match self {
            EscrowState::Uninitialized => "Uninitialized".to_owned(),
            EscrowState::Created => "Created".to_owned(),
            EscrowState::Initialized => "Initialized".to_owned(),
            EscrowState::Funded => "Funded".to_owned(),
            EscrowState::Completed => "Completed".to_owned(),
            EscrowState::Cancelled => "Cancelled".to_owned(),
        }
    }
}

/// Parses a discriminant byte; bytes outside `0..=5` name no state.
pub fn parse_state(b: u8) -> (r: Option<EscrowState>)
    ensures
        b <= 5 ==> r == Some(state_of_byte(b)),
        b > 5 ==> r is None,
{
    match b {
        0 => Some(EscrowState::Uninitialized),
        1 => Some(EscrowState::Created),
        2 => Some(EscrowState::Initialized),
        3 => Some(EscrowState::Funded),
        4 => Some(EscrowState::Completed),
        5 => Some(EscrowState::Cancelled),
        _ => None,
    }
}

/// The precondition table of the protocol: which current state lets an
/// action go forward.  `CreateOffer` allocates a fresh record and has no
/// precondition.
pub open spec fn action_allows(action: Action, state: EscrowState) -> bool {
    match action {
        Action::CreateOffer => true,
        Action::JoinOffer => state == EscrowState::Created,
        Action::Fund => state == EscrowState::Initialized,
        Action::Confirm => state == EscrowState::Funded,
        Action::ArbiterConfirm => state == EscrowState::Funded,
        Action::ArbiterCancel => state == EscrowState::Funded,
        Action::MutualCancel => state == EscrowState::Initialized || state
            == EscrowState::Funded,
        Action::Close => state == EscrowState::Completed || state == EscrowState::Cancelled,
    }
}

/// The whitelist of states in which an action is legal, in protocol order.
/// `CreateOffer` is legal everywhere, so its list is empty: no guard error
/// ever reports it.
pub open spec fn expected_states(action: Action) -> Seq<EscrowState> {
    match action {
        Action::CreateOffer => Seq::empty(),
        Action::JoinOffer => seq![EscrowState::Created],
        Action::Fund => seq![EscrowState::Initialized],
        Action::Confirm => seq![EscrowState::Funded],
        Action::ArbiterConfirm => seq![EscrowState::Funded],
        Action::ArbiterCancel => seq![EscrowState::Funded],
        Action::MutualCancel => seq![EscrowState::Initialized, EscrowState::Funded],
        Action::Close => seq![EscrowState::Completed, EscrowState::Cancelled],
    }
}

/// A rejected precondition: the record was not in any of the states the
/// action requires.
#[derive(Debug, PartialEq, Eq)]
pub enum GuardError {
    WrongState { expected: Vec<EscrowState>, actual: EscrowState },
}

/// Pre-flight check of an action against the current record state.  This is
/// a local optimization only: the on-chain program re-checks independently.
pub fn authorize(state: EscrowState, action: Action) -> (r: Result<(), GuardError>)
    ensures
        r is Ok <==> action_allows(action, state),
        !action_allows(action, state) ==> (r matches Err(GuardError::WrongState { expected, actual })
            && expected@ == expected_states(action) && actual == state),
{
    let allowed = match action {
        Action::CreateOffer => true,
        Action::JoinOffer => state == EscrowState::Created,
        Action::Fund => state == EscrowState::Initialized,
        Action::Confirm => state == EscrowState::Funded,
        Action::ArbiterConfirm => state == EscrowState::Funded,
        Action::ArbiterCancel => state == EscrowState::Funded,
        Action::MutualCancel => state == EscrowState::Initialized || state
            == EscrowState::Funded,
        Action::Close => state == EscrowState::Completed || state == EscrowState::Cancelled,
    };
    if allowed {
        Ok(())
    } else {
        Err(GuardError::WrongState { expected: expected_states_vec(action), actual: state })
    }
}

/// The whitelist of `expected_states`, as an executable vector for error
/// reports.
pub fn expected_states_vec(action: Action) -> (r: Vec<EscrowState>)
    ensures
        r@ == expected_states(action),
{
    let mut r: Vec<EscrowState> = Vec::new();
    match action {
        Action::CreateOffer => {},
        Action::JoinOffer => {
            r.push(EscrowState::Created);
        },
        Action::Fund => {
            r.push(EscrowState::Initialized);
        },
        Action::Confirm => {
            r.push(EscrowState::Funded);
        },
        Action::ArbiterConfirm => {
            r.push(EscrowState::Funded);
        },
        Action::ArbiterCancel => {
            r.push(EscrowState::Funded);
        },
        Action::MutualCancel => {
            r.push(EscrowState::Initialized);
            r.push(EscrowState::Funded);
        },
        Action::Close => {
            r.push(EscrowState::Completed);
            r.push(EscrowState::Cancelled);
        },
    }
    proof {
        assert(r@ =~= expected_states(action));
    }
    r
}

} // verus!
