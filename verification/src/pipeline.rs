//! Per-action flows and the submission gate.  Each flow takes the raw
//! account buffer read from the ledger, decodes it, authorizes the action
//! against the decoded state, and only then builds the instruction; the
//! gate inspects a dry-run outcome and refuses submission of any request
//! the dry run reported as failing.

use vstd::prelude::*;
use crate::codec::{decode, LayoutError, RECORD_LEN};
use crate::state::{action_allows, authorize, expected_states, state_of_byte, Action, EscrowState,
    GuardError};
use crate::instruction::{actor_vault_system_shape, arbiter_ruling_shape, build_arbiter_cancel,
    build_arbiter_confirm, build_close, build_confirm, build_create_offer, build_fund,
    build_join_offer, build_mutual_cancel, close_shape, create_offer_shape, join_offer_shape,
    mutual_cancel_shape, InstructionPlan};

verus! {

/// Why a flow stopped before building an instruction.
#[derive(Debug, PartialEq, Eq)]
pub enum PlanError {
    /// The account buffer does not decode to an escrow record.
    Layout(LayoutError),
    /// The record is not in a state the action allows.
    Guard(GuardError),
}

/// The buffer holds a well-formed record: long enough, with a known
/// discriminant byte.
pub open spec fn buffer_decodes(bytes: Seq<u8>) -> bool {
    bytes.len() >= RECORD_LEN && bytes[104] <= 5
}

/// The state of the record held by a well-formed buffer.
pub open spec fn buffer_state(bytes: Seq<u8>) -> EscrowState
    recommends
        buffer_decodes(bytes),
{
    state_of_byte(bytes[104])
}

/// The layout error a malformed buffer is rejected with.
pub open spec fn layout_error_of(bytes: Seq<u8>) -> LayoutError
    recommends
        !buffer_decodes(bytes),
{
    if bytes.len() < RECORD_LEN {
        LayoutError::TooShort { len: bytes.len() as usize }
    } else {
        LayoutError::InvalidState { byte: bytes[104] }
    }
}

/// The flow stopped on `bytes` with the error the buffer or the guard owes
/// for `action`: a malformed buffer yields its layout error, a well-formed
/// buffer in a state outside the action's whitelist yields the guard's
/// report of expected versus actual state.
pub open spec fn flow_rejects(r: Result<InstructionPlan, PlanError>, bytes: Seq<u8>, action: Action)
    -> bool {
    &&& !buffer_decodes(bytes) ==> (r matches Err(PlanError::Layout(e)) && e == layout_error_of(
        bytes,
    ))
    &&& (buffer_decodes(bytes) && !action_allows(action, buffer_state(bytes))) ==> (r matches Err(
        PlanError::Guard(GuardError::WrongState { expected, actual }),
    ) && expected@ == expected_states(action) && actual == buffer_state(bytes))
    &&& r is Err ==> !(buffer_decodes(bytes) && action_allows(action, buffer_state(bytes)))
}

/// Decodes the record in `account_data` and authorizes `action` on it.
fn read_and_authorize(account_data: &Vec<u8>, action: Action) -> (r: Result<EscrowState, PlanError>)
    ensures
        r matches Ok(state) ==> buffer_decodes(account_data@) && state == buffer_state(
            account_data@,
        ) && action_allows(action, state),
        !buffer_decodes(account_data@) ==> (r matches Err(PlanError::Layout(e)) && e
            == layout_error_of(account_data@)),
        (buffer_decodes(account_data@) && !action_allows(action, buffer_state(account_data@)))
            ==> (r matches Err(PlanError::Guard(GuardError::WrongState { expected, actual }))
            && expected@ == expected_states(action) && actual == buffer_state(account_data@)),
        r is Err ==> !(buffer_decodes(account_data@) && action_allows(action, buffer_state(
            account_data@,
        ))),
{
    let rec = match decode(account_data) {
        Ok(rec) => rec,
        Err(e) => {
            return Err(PlanError::Layout(e));
        },
    };
    match authorize(rec.state, action) {
        Ok(()) => Ok(rec.state),
        Err(g) => Err(PlanError::Guard(g)),
    }
}

/// Flow of `JoinOffer`: the record must be in `Created`; the built
/// instruction carries opcode 1 and the seller's key as payload.
pub fn plan_join_offer(
    account_data: &Vec<u8>,
    seller: &[u8; 32],
    escrow: &[u8; 32],
    program: &[u8; 32],
) -> (r: Result<InstructionPlan, PlanError>)
    ensures
        flow_rejects(r, account_data@, Action::JoinOffer),
        (buffer_decodes(account_data@) && buffer_state(account_data@) == EscrowState::Created) ==> (
        r matches Ok(p) && join_offer_shape(p, seller@, escrow@, program@)),
{
    match read_and_authorize(account_data, Action::JoinOffer) {
        Ok(_) => Ok(build_join_offer(seller, escrow, program)),
        Err(e) => Err(e),
    }
}

/// Flow of `Fund`: the record must be in `Initialized`; the buyer funds
/// the vault (opcode 2).
pub fn plan_fund(
    account_data: &Vec<u8>,
    buyer: &[u8; 32],
    escrow: &[u8; 32],
    vault: &[u8; 32],
    program: &[u8; 32],
) -> (r: Result<InstructionPlan, PlanError>)
    ensures
        flow_rejects(r, account_data@, Action::Fund),
        (buffer_decodes(account_data@) && buffer_state(account_data@) == EscrowState::Initialized)
            ==> (r matches Ok(p) && actor_vault_system_shape(p, Action::Fund, buyer@, escrow@,
        vault@, program@)),
{
    match read_and_authorize(account_data, Action::Fund) {
        Ok(_) => Ok(build_fund(buyer, escrow, vault, program)),
        Err(e) => Err(e),
    }
}

/// Flow of `Confirm`: the record must be in `Funded`; the seller confirms
/// (opcode 3).
pub fn plan_confirm(
    account_data: &Vec<u8>,
    seller: &[u8; 32],
    escrow: &[u8; 32],
    vault: &[u8; 32],
    program: &[u8; 32],
) -> (r: Result<InstructionPlan, PlanError>)
    ensures
        flow_rejects(r, account_data@, Action::Confirm),
        (buffer_decodes(account_data@) && buffer_state(account_data@) == EscrowState::Funded) ==> (
        r matches Ok(p) && actor_vault_system_shape(p, Action::Confirm, seller@, escrow@, vault@,
        program@)),
{
    match read_and_authorize(account_data, Action::Confirm) {
        Ok(_) => Ok(build_confirm(seller, escrow, vault, program)),
        Err(e) => Err(e),
    }
}

/// Flow of `ArbiterConfirm`: the record must be in `Funded`; the arbiter
/// rules for the seller (opcode 4).
pub fn plan_arbiter_confirm(
    account_data: &Vec<u8>,
    arbiter: &[u8; 32],
    escrow: &[u8; 32],
    vault: &[u8; 32],
    seller: &[u8; 32],
    program: &[u8; 32],
) -> (r: Result<InstructionPlan, PlanError>)
    ensures
        flow_rejects(r, account_data@, Action::ArbiterConfirm),
        (buffer_decodes(account_data@) && buffer_state(account_data@) == EscrowState::Funded) ==> (
        r matches Ok(p) && arbiter_ruling_shape(p, Action::ArbiterConfirm, arbiter@, escrow@,
        vault@, seller@, program@)),
{
    match read_and_authorize(account_data, Action::ArbiterConfirm) {
        Ok(_) => Ok(build_arbiter_confirm(arbiter, escrow, vault, seller, program)),
        Err(e) => Err(e),
    }
}

/// Flow of `ArbiterCancel`: the record must be in `Funded`; the arbiter
/// rules for the buyer (opcode 5).
pub fn plan_arbiter_cancel(
    account_data: &Vec<u8>,
    arbiter: &[u8; 32],
    escrow: &[u8; 32],
    vault: &[u8; 32],
    buyer: &[u8; 32],
    program: &[u8; 32],
) -> (r: Result<InstructionPlan, PlanError>)
    ensures
        flow_rejects(r, account_data@, Action::ArbiterCancel),
        (buffer_decodes(account_data@) && buffer_state(account_data@) == EscrowState::Funded) ==> (
        r matches Ok(p) && arbiter_ruling_shape(p, Action::ArbiterCancel, arbiter@, escrow@, vault@,
        buyer@, program@)),
{
    match read_and_authorize(account_data, Action::ArbiterCancel) {
        Ok(_) => Ok(build_arbiter_cancel(arbiter, escrow, vault, buyer, program)),
        Err(e) => Err(e),
    }
}

/// Flow of `MutualCancel`: the record must be in `Initialized` or
/// `Funded`; buyer and seller cancel together (opcode 8).
pub fn plan_mutual_cancel(
    account_data: &Vec<u8>,
    buyer: &[u8; 32],
    seller: &[u8; 32],
    escrow: &[u8; 32],
    vault: &[u8; 32],
    program: &[u8; 32],
) -> (r: Result<InstructionPlan, PlanError>)
    ensures
        flow_rejects(r, account_data@, Action::MutualCancel),
        (buffer_decodes(account_data@) && (buffer_state(account_data@) == EscrowState::Initialized
            || buffer_state(account_data@) == EscrowState::Funded)) ==> (r matches Ok(p)
            && mutual_cancel_shape(p, buyer@, seller@, escrow@, vault@, program@)),
{
    match read_and_authorize(account_data, Action::MutualCancel) {
        Ok(_) => Ok(build_mutual_cancel(buyer, seller, escrow, vault, program)),
        Err(e) => Err(e),
    }
}

/// Flow of `Close`: the record must be terminal (`Completed` or
/// `Cancelled`); the closer releases the record's storage (opcode 6).
pub fn plan_close(
    account_data: &Vec<u8>,
    closer: &[u8; 32],
    escrow: &[u8; 32],
    program: &[u8; 32],
) -> (r: Result<InstructionPlan, PlanError>)
    ensures
        flow_rejects(r, account_data@, Action::Close),
        (buffer_decodes(account_data@) && (buffer_state(account_data@) == EscrowState::Completed
            || buffer_state(account_data@) == EscrowState::Cancelled)) ==> (r matches Ok(p)
            && close_shape(p, closer@, escrow@, program@)),
{
    match read_and_authorize(account_data, Action::Close) {
        Ok(_) => Ok(build_close(closer, escrow, program)),
        Err(e) => Err(e),
    }
}

/// The record-allocation step of `CreateOffer`: the buyer funds a fresh
/// 106-byte account owned by the program.
#[derive(Clone, Copy, Debug, PartialEq, Eq)]
pub struct CreateAccountParams {
    pub from: [u8; 32],
    pub to: [u8; 32],
    pub lamports: u64,
    pub space: u64,
    pub owner: [u8; 32],
}

/// The full `CreateOffer` request: allocate the record, then initialize it.
#[derive(Debug, PartialEq, Eq)]
pub struct CreateOfferPlan {
    pub allocate: CreateAccountParams,
    pub initialize: InstructionPlan,
}

/// Flow of `CreateOffer`: no guard, since it allocates a fresh record.
/// The buyer pays `rent_lamports` (the minimum reserve for 106 bytes,
/// fetched from the ledger) into the new record account, and the
/// initialize instruction carries the amount and the arbiter's key.
pub fn plan_create_offer(
    buyer: &[u8; 32],
    escrow: &[u8; 32],
    vault: &[u8; 32],
    program: &[u8; 32],
    amount: u64,
    arbiter: &[u8; 32],
    rent_lamports: u64,
) -> (r: CreateOfferPlan)
    ensures
        r.allocate.from@ == buyer@,
        r.allocate.to@ == escrow@,
        r.allocate.lamports == rent_lamports,
        r.allocate.space == RECORD_LEN,
        r.allocate.owner@ == program@,
        create_offer_shape(r.initialize, buyer@, escrow@, vault@, program@, amount, arbiter@),
{
    let allocate = CreateAccountParams {
        from: *buyer,
        to: *escrow,
        lamports: rent_lamports,
        space: 106,
        owner: *program,
    };
    let initialize = build_create_offer(buyer, escrow, vault, program, amount, arbiter);
    CreateOfferPlan { allocate, initialize }
}

/// What a dry run of a signed request reported: the diagnostic trace and,
/// on failure, the remote error rendered as text.
#[derive(Debug)]
pub struct DryRunOutcome {
    pub logs: Vec<String>,
    pub error: Option<String>,
}

/// The dry run reported a failure; carries the remote diagnostic verbatim.
#[derive(Debug)]
pub struct SimulationError {
    pub detail: String,
}

/// Gate of the two-phase submission: a request whose dry run reported any
/// error is refused, and only a clean dry run lets submission proceed.
pub fn submission_gate(outcome: &DryRunOutcome) -> (r: Result<(), SimulationError>)
    ensures
        r is Ok <==> outcome.error is None,
        outcome.error matches Some(d) ==> (r matches Err(e) && e.detail@ == d@),
{
    match &outcome.error {
        None => Ok(()),
        Some(d) => Err(SimulationError { detail: d.clone() }),
    }
}

} // verus!
