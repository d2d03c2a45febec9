//! Instruction builders.  For each protocol action they fix the ordered
//! account-reference list (with its writable and signer flags) and the
//! opcode-plus-payload byte string.  Both are part of the wire contract
//! with the on-chain program and must match it exactly.

use vstd::prelude::*;
use vstd::bytes::{spec_u64_from_le_bytes, spec_u64_to_le_bytes, u64_to_le_bytes};
use crate::state::Action;

verus! {

/// One entry of an instruction's ordered account list.
#[derive(Clone, Copy, Debug, PartialEq, Eq)]
pub struct AccountRef {
    pub pubkey: [u8; 32],
    pub is_writable: bool,
    pub is_signer: bool,
}

/// A fully built instruction: the program to invoke, the ordered account
/// references, and the opcode-plus-payload data.
#[derive(Debug, PartialEq, Eq)]
pub struct InstructionPlan {
    pub program_id: [u8; 32],
    pub accounts: Vec<AccountRef>,
    pub data: Vec<u8>,
}

/// The opcode byte of each action.  Opcode 7 is a gap in the on-chain
/// program's discriminant space and is never emitted.
pub open spec fn spec_opcode(action: Action) -> u8 {
    match action {
        Action::CreateOffer => 0,
        Action::JoinOffer => 1,
        Action::Fund => 2,
        Action::Confirm => 3,
        Action::ArbiterConfirm => 4,
        Action::ArbiterCancel => 5,
        Action::Close => 6,
        Action::MutualCancel => 8,
    }
}

/// The opcode byte of an action.
pub fn opcode(action: Action) -> (r: u8)
    ensures
        r == spec_opcode(action),
{
    match action {
        Action::CreateOffer => 0,
        Action::JoinOffer => 1,
        Action::Fund => 2,
        Action::Confirm => 3,
        Action::ArbiterConfirm => 4,
        Action::ArbiterCancel => 5,
        Action::Close => 6,
        Action::MutualCancel => 8,
    }
}

/// The account reference `a` names `key` with exactly the given flags.
pub open spec fn account_is(a: AccountRef, key: Seq<u8>, writable: bool, signer: bool) -> bool {
    &&& a.pubkey@ == key
    &&& a.is_writable == writable
    &&& a.is_signer == signer
}

/// The well-known system program key: thirty-two zero bytes.
pub open spec fn system_key() -> Seq<u8> {
    Seq::new(32, |i: int| 0u8)
}

/// The system program's public key.
pub fn system_program_id() -> (r: [u8; 32])
    ensures
        r@ == system_key(),
{
    let r = [0u8; 32];
    proof {
        assert(r@ =~= system_key());
    }
    r
}

fn account(key: &[u8; 32], writable: bool, signer: bool) -> (a: AccountRef)
    ensures
        account_is(a, key@, writable, signer),
{
    AccountRef { pubkey: *key, is_writable: writable, is_signer: signer }
}

fn opcode_only_data(action: Action) -> (d: Vec<u8>)
    ensures
        d@ == seq![spec_opcode(action)],
{
    let mut d: Vec<u8> = Vec::new();
    d.push(opcode(action));
    proof {
        assert(d@ =~= seq![spec_opcode(action)]);
    }
    d
}

/// The expected shape of a `CreateOffer` instruction: buyer and the new
/// record sign, the vault is written, the system program is read, and the
/// payload carries the amount then the arbiter key.
pub open spec fn create_offer_shape(
    p: InstructionPlan,
    buyer: Seq<u8>,
    escrow: Seq<u8>,
    vault: Seq<u8>,
    program: Seq<u8>,
    amount: u64,
    arbiter: Seq<u8>,
) -> bool {
    &&& p.program_id@ == program
    &&& p.data@ == seq![spec_opcode(Action::CreateOffer)] + spec_u64_to_le_bytes(amount) + arbiter
    &&& p.accounts@.len() == 4
    &&& account_is(p.accounts@[0], buyer, true, true)
    &&& account_is(p.accounts@[1], escrow, true, true)
    &&& account_is(p.accounts@[2], vault, true, false)
    &&& account_is(p.accounts@[3], system_key(), false, false)
}

/// Builds the `CreateOffer` instruction (opcode 0).
pub fn build_create_offer(
    buyer: &[u8; 32],
    escrow: &[u8; 32],
    vault: &[u8; 32],
    program: &[u8; 32],
    amount: u64,
    arbiter: &[u8; 32],
) -> (p: InstructionPlan)
    ensures
        create_offer_shape(p, buyer@, escrow@, vault@, program@, amount, arbiter@),
{
    let mut data = opcode_only_data(Action::CreateOffer);
    let mut amount_bytes = u64_to_le_bytes(amount);
    data.append(&mut amount_bytes);
    data.extend_from_slice(arbiter.as_slice());
    proof {
        assert(data@ =~= seq![spec_opcode(Action::CreateOffer)] + spec_u64_to_le_bytes(amount)
            + arbiter@);
    }
    let mut accounts: Vec<AccountRef> = Vec::new();
    accounts.push(account(buyer, true, true));
    accounts.push(account(escrow, true, true));
    accounts.push(account(vault, true, false));
    accounts.push(account(&system_program_id(), false, false));
    InstructionPlan { program_id: *program, accounts, data }
}

/// The expected shape of a `JoinOffer` instruction: the seller signs, the
/// record is written, and the payload carries the seller's key.
pub open spec fn join_offer_shape(
    p: InstructionPlan,
    seller: Seq<u8>,
    escrow: Seq<u8>,
    program: Seq<u8>,
) -> bool {
    &&& p.program_id@ == program
    &&& p.data@ == seq![spec_opcode(Action::JoinOffer)] + seller
    &&& p.accounts@.len() == 2
    &&& account_is(p.accounts@[0], seller, true, true)
    &&& account_is(p.accounts@[1], escrow, true, false)
}

/// Builds the `JoinOffer` instruction (opcode 1).
pub fn build_join_offer(seller: &[u8; 32], escrow: &[u8; 32], program: &[u8; 32]) -> (p:
    InstructionPlan)
    ensures
        join_offer_shape(p, seller@, escrow@, program@),
{
    let mut data = opcode_only_data(Action::JoinOffer);
    data.extend_from_slice(seller.as_slice());
    proof {
        assert(data@ =~= seq![spec_opcode(Action::JoinOffer)] + seller@);
    }
    let mut accounts: Vec<AccountRef> = Vec::new();
    accounts.push(account(seller, true, true));
    accounts.push(account(escrow, true, false));
    InstructionPlan { program_id: *program, accounts, data }
}

/// The shared shape of the `Fund` and `Confirm` instructions: the actor
/// signs, record and vault are written, the system program is read, and
/// the data is the bare opcode.
pub open spec fn actor_vault_system_shape(
    p: InstructionPlan,
    action: Action,
    actor: Seq<u8>,
    escrow: Seq<u8>,
    vault: Seq<u8>,
    program: Seq<u8>,
) -> bool {
    &&& p.program_id@ == program
    &&& p.data@ == seq![spec_opcode(action)]
    &&& p.accounts@.len() == 4
    &&& account_is(p.accounts@[0], actor, true, true)
    &&& account_is(p.accounts@[1], escrow, true, false)
    &&& account_is(p.accounts@[2], vault, true, false)
    &&& account_is(p.accounts@[3], system_key(), false, false)
}

/// Builds the `Fund` instruction (opcode 2): the buyer moves the escrowed
/// amount into the vault.
pub fn build_fund(buyer: &[u8; 32], escrow: &[u8; 32], vault: &[u8; 32], program: &[u8; 32]) -> (p:
    InstructionPlan)
    ensures
        actor_vault_system_shape(p, Action::Fund, buyer@, escrow@, vault@, program@),
{
    build_actor_vault_system(Action::Fund, buyer, escrow, vault, program)
}

/// Builds the `Confirm` instruction (opcode 3): the seller confirms and the
/// vault releases.
pub fn build_confirm(seller: &[u8; 32], escrow: &[u8; 32], vault: &[u8; 32], program: &[u8; 32]) -> (
    p: InstructionPlan)
    ensures
        actor_vault_system_shape(p, Action::Confirm, seller@, escrow@, vault@, program@),
{
    build_actor_vault_system(Action::Confirm, seller, escrow, vault, program)
}

fn build_actor_vault_system(
    action: Action,
    actor: &[u8; 32],
    escrow: &[u8; 32],
    vault: &[u8; 32],
    program: &[u8; 32],
) -> (p: InstructionPlan)
    ensures
        actor_vault_system_shape(p, action, actor@, escrow@, vault@, program@),
{
    let data = opcode_only_data(action);
    let mut accounts: Vec<AccountRef> = Vec::new();
    accounts.push(account(actor, true, true));
    accounts.push(account(escrow, true, false));
    accounts.push(account(vault, true, false));
    accounts.push(account(&system_program_id(), false, false));
    InstructionPlan { program_id: *program, accounts, data }
}

/// The shared shape of the arbiter rulings: the arbiter signs, record and
/// vault are written, and the counterparty receiving the funds is written.
pub open spec fn arbiter_ruling_shape(
    p: InstructionPlan,
    action: Action,
    arbiter: Seq<u8>,
    escrow: Seq<u8>,
    vault: Seq<u8>,
    counterparty: Seq<u8>,
    program: Seq<u8>,
) -> bool {
    &&& p.program_id@ == program
    &&& p.data@ == seq![spec_opcode(action)]
    &&& p.accounts@.len() == 4
    &&& account_is(p.accounts@[0], arbiter, true, true)
    &&& account_is(p.accounts@[1], escrow, true, false)
    &&& account_is(p.accounts@[2], vault, true, false)
    &&& account_is(p.accounts@[3], counterparty, true, false)
}

/// Builds the `ArbiterConfirm` instruction (opcode 4): the arbiter rules
/// for the seller.
pub fn build_arbiter_confirm(
    arbiter: &[u8; 32],
    escrow: &[u8; 32],
    vault: &[u8; 32],
    seller: &[u8; 32],
    program: &[u8; 32],
) -> (p: InstructionPlan)
    ensures
        arbiter_ruling_shape(p, Action::ArbiterConfirm, arbiter@, escrow@, vault@, seller@, program@),
{
    build_arbiter_ruling(Action::ArbiterConfirm, arbiter, escrow, vault, seller, program)
}

/// Builds the `ArbiterCancel` instruction (opcode 5): the arbiter rules
/// for the buyer.
pub fn build_arbiter_cancel(
    arbiter: &[u8; 32],
    escrow: &[u8; 32],
    vault: &[u8; 32],
    buyer: &[u8; 32],
    program: &[u8; 32],
) -> (p: InstructionPlan)
    ensures
        arbiter_ruling_shape(p, Action::ArbiterCancel, arbiter@, escrow@, vault@, buyer@, program@),
{
    build_arbiter_ruling(Action::ArbiterCancel, arbiter, escrow, vault, buyer, program)
}

fn build_arbiter_ruling(
    action: Action,
    arbiter: &[u8; 32],
    escrow: &[u8; 32],
    vault: &[u8; 32],
    counterparty: &[u8; 32],
    program: &[u8; 32],
) -> (p: InstructionPlan)
    ensures
        arbiter_ruling_shape(p, action, arbiter@, escrow@, vault@, counterparty@, program@),
{
    let data = opcode_only_data(action);
    let mut accounts: Vec<AccountRef> = Vec::new();
    accounts.push(account(arbiter, true, true));
    accounts.push(account(escrow, true, false));
    accounts.push(account(vault, true, false));
    accounts.push(account(counterparty, true, false));
    InstructionPlan { program_id: *program, accounts, data }
}

/// The expected shape of a `MutualCancel` instruction: buyer and seller
/// both sign, record and vault are written, the system program is read.
pub open spec fn mutual_cancel_shape(
    p: InstructionPlan,
    buyer: Seq<u8>,
    seller: Seq<u8>,
    escrow: Seq<u8>,
    vault: Seq<u8>,
    program: Seq<u8>,
) -> bool {
    &&& p.program_id@ == program
    &&& p.data@ == seq![spec_opcode(Action::MutualCancel)]
    &&& p.accounts@.len() == 5
    &&& account_is(p.accounts@[0], buyer, true, true)
    &&& account_is(p.accounts@[1], seller, true, true)
    &&& account_is(p.accounts@[2], escrow, true, false)
    &&& account_is(p.accounts@[3], vault, true, false)
    &&& account_is(p.accounts@[4], system_key(), false, false)
}

/// Builds the `MutualCancel` instruction (opcode 8).
pub fn build_mutual_cancel(
    buyer: &[u8; 32],
    seller: &[u8; 32],
    escrow: &[u8; 32],
    vault: &[u8; 32],
    program: &[u8; 32],
) -> (p: InstructionPlan)
    ensures
        mutual_cancel_shape(p, buyer@, seller@, escrow@, vault@, program@),
{
    let data = opcode_only_data(Action::MutualCancel);
    let mut accounts: Vec<AccountRef> = Vec::new();
    accounts.push(account(buyer, true, true));
    accounts.push(account(seller, true, true));
    accounts.push(account(escrow, true, false));
    accounts.push(account(vault, true, false));
    accounts.push(account(&system_program_id(), false, false));
    InstructionPlan { program_id: *program, accounts, data }
}

/// The expected shape of a `Close` instruction: the closer signs and the
/// record is written; the record's storage is released.
pub open spec fn close_shape(
    p: InstructionPlan,
    closer: Seq<u8>,
    escrow: Seq<u8>,
    program: Seq<u8>,
) -> bool {
    &&& p.program_id@ == program
    &&& p.data@ == seq![spec_opcode(Action::Close)]
    &&& p.accounts@.len() == 2
    &&& account_is(p.accounts@[0], closer, true, true)
    &&& account_is(p.accounts@[1], escrow, true, false)
}

/// Builds the `Close` instruction (opcode 6).
pub fn build_close(closer: &[u8; 32], escrow: &[u8; 32], program: &[u8; 32]) -> (p: InstructionPlan)
    ensures
        close_shape(p, closer@, escrow@, program@),
{
    let data = opcode_only_data(Action::Close);
    let mut accounts: Vec<AccountRef> = Vec::new();
    accounts.push(account(closer, true, true));
    accounts.push(account(escrow, true, false));
    InstructionPlan { program_id: *program, accounts, data }
}

/// Law: re-deriving an instruction payload from a decoded record
/// round-trips the record's bytes exactly.  For any well-formed account
/// buffer, the `CreateOffer` payload rebuilt from the decoded amount and
/// arbiter fields is the opcode byte followed by the very amount and
/// arbiter bytes of the buffer.  (The other payload fields — buyer,
/// seller, vault_bump — are carried verbatim as subranges by `decode`'s
/// own contract.)
pub proof fn lemma_payload_round_trip(bytes: Seq<u8>)
    requires
        bytes.len() >= 106,
    ensures
        seq![spec_opcode(Action::CreateOffer)] + spec_u64_to_le_bytes(
            spec_u64_from_le_bytes(bytes.subrange(96, 104)),
        ) + bytes.subrange(64, 96) == seq![0u8] + bytes.subrange(96, 104) + bytes.subrange(64, 96),
        seq![spec_opcode(Action::JoinOffer)] + bytes.subrange(32, 64) == seq![1u8] + bytes.subrange(
            32,
            64,
        ),
{
    crate::codec::lemma_amount_round_trip(bytes.subrange(96, 104));
}

/// The keys of the signer-flagged account references, in account order.
/// Every keypair whose public key appears here must sign the request.
pub open spec fn signer_keys(accounts: Seq<AccountRef>) -> Seq<Seq<u8>>
    decreases accounts.len(),
{
    if accounts.len() == 0 {
        Seq::empty()
    } else {
        signer_keys(accounts.drop_last()) + (if accounts.last().is_signer {
            seq![accounts.last().pubkey@]
        } else {
            Seq::empty()
        })
    }
}

/// Collects the signer set of an instruction: the keys of exactly the
/// account references flagged as signers, in order.
pub fn required_signers(p: &InstructionPlan) -> (r: Vec<[u8; 32]>)
    ensures
        r@.map_values(|k: [u8; 32]| k@) == signer_keys(p.accounts@),
{
    let mut r: Vec<[u8; 32]> = Vec::new();
    let n = p.accounts.len();
    let mut i: usize = 0;
    while i < n
        invariant
            i <= n,
            n == p.accounts@.len(),
            r@.map_values(|k: [u8; 32]| k@) == signer_keys(p.accounts@.subrange(0, i as int)),
        decreases n - i,
    {
        let a = &p.accounts[i];
        if a.is_signer {
            r.push(a.pubkey);
        }
        proof {
            let pre = p.accounts@.subrange(0, i as int);
            let post = p.accounts@.subrange(0, i + 1);
            assert(post.drop_last() =~= pre);
            assert(post.last() == p.accounts@[i as int]);
            assert(r@.map_values(|k: [u8; 32]| k@) =~= signer_keys(post));
        }
        i += 1;
    }
    proof {
        assert(p.accounts@.subrange(0, p.accounts@.len() as int) =~= p.accounts@);
    }
    r
}

} // verus!
