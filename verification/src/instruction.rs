use crate::pubkey::Pubkey;
use vstd::bytes::{lemma_auto_spec_u64_to_from_le_bytes, spec_u64_to_le_bytes};
use vstd::prelude::*;

verus! {

/// One account that an instruction names, and how it is to be used.
#[derive(Clone, Copy, Debug, PartialEq, Eq)]
pub struct AccountMeta {
    pub pubkey: Pubkey,
    /// The account has to have signed the transaction.
    pub is_signer: bool,
    /// The instruction may change the account.
    pub is_writable: bool,
}

/// A call into another program, to be handed to the runtime.
#[derive(Clone, Debug, PartialEq, Eq)]
pub struct Instruction {
    /// The program that is called.
    pub program_id: Pubkey,
    /// The accounts that the call names, in the callee's order.
    pub accounts: Vec<AccountMeta>,
    /// The callee's arguments, in its own encoding.
    pub data: Vec<u8>,
}

/// An instruction as a plain value.
pub struct InstructionView {
    pub program_id: Pubkey,
    pub accounts: Seq<AccountMeta>,
    pub data: Seq<u8>,
}

impl View for Instruction {
    type V = InstructionView;

    open spec fn view(&self) -> InstructionView {
        InstructionView { program_id: self.program_id, accounts: self.accounts@, data: self.data@ }
    }
}

/// The bytes of the system program's address.
pub const SYSTEM_PROGRAM_BYTES: [u8; 32] = [
    0, 0, 0, 0, 0, 0, 0, 0, 0, 0, 0, 0, 0, 0, 0, 0,
    0, 0, 0, 0, 0, 0, 0, 0, 0, 0, 0, 0, 0, 0, 0, 0,
];

/// The address of the system program, which alone moves native currency
/// out of an account that no program owns.
pub open spec fn system_program_id() -> Pubkey {
    Pubkey { bytes: SYSTEM_PROGRAM_BYTES }
}

/// The arguments of the system program's transfer: its index among the
/// system instructions in four bytes, then the amount in eight, both
/// little-endian.
pub open spec fn transfer_data(lamports: u64) -> Seq<u8> {
    seq![2u8, 0u8, 0u8, 0u8] + spec_u64_to_le_bytes(lamports)
}

/// The arguments of a transfer take twelve bytes.
pub proof fn lemma_transfer_data_len(lamports: u64)
    ensures
        transfer_data(lamports).len() == 12,
{
    lemma_auto_spec_u64_to_from_le_bytes();
}

/// The system program's instruction that moves `lamports` from `from`,
/// which has to sign, to `to`.
pub open spec fn transfer_instruction(from: Pubkey, to: Pubkey, lamports: u64) -> InstructionView {
    InstructionView {
        program_id: system_program_id(),
        accounts: seq![
            AccountMeta { pubkey: from, is_signer: true, is_writable: true },
            AccountMeta { pubkey: to, is_signer: false, is_writable: true },
        ],
        data: transfer_data(lamports),
    }
}

/// `system_instruction::transfer` of solana_program: builds the system
/// program's transfer instruction. It names the source as a writable signer
/// and the destination as writable, and encodes the arguments with bincode.
#[verifier::external_body]
pub(crate) fn system_transfer(from: &Pubkey, to: &Pubkey, lamports: u64) -> (ix: Instruction)
    ensures
        ix@ == transfer_instruction(*from, *to, lamports),
{
    let from = anchor_lang::solana_program::pubkey::Pubkey::new_from_array(from.bytes);
    let to = anchor_lang::solana_program::pubkey::Pubkey::new_from_array(to.bytes);
    let ix = anchor_lang::solana_program::system_instruction::transfer(&from, &to, lamports);
    Instruction {
        program_id: Pubkey { bytes: ix.program_id.to_bytes() },
        accounts: ix.accounts.iter().map(|m| AccountMeta {
            pubkey: Pubkey { bytes: m.pubkey.to_bytes() },
            is_signer: m.is_signer,
            is_writable: m.is_writable,
        }).collect(),
        data: ix.data,
    }
}

} // verus!
