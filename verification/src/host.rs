use crate::request::VOTING_FEE;
use anchor_lang::solana_program::pubkey::Pubkey;
use anchor_lang::solana_program::system_instruction::transfer;
use vstd::bytes::spec_u64_to_le_bytes;
use vstd::prelude::*;

verus! {

/// One account that an instruction touches, and how.
#[derive(Clone, Copy, Debug, PartialEq, Eq)]
pub struct AccountMeta {
    pub pubkey: [u8; 32],
    pub is_signer: bool,
    pub is_writable: bool,
}

/// An instruction for the host's system program, in plain values.
#[derive(Debug, PartialEq, Eq)]
pub struct TransferInstruction {
    pub program_id: [u8; 32],
    pub accounts: Vec<AccountMeta>,
    pub data: Vec<u8>,
}

/// The address of the system program: thirty-two zero bytes.
pub open spec fn system_program_id() -> Seq<u8> {
    Seq::new(32, |i: int| 0u8)
}

/// The data of a transfer: the number of the instruction, 2, as four bytes,
/// then the amount as eight bytes, both least significant byte first.
pub open spec fn transfer_data(lamports: u64) -> Seq<u8> {
    seq![2u8, 0u8, 0u8, 0u8] + spec_u64_to_le_bytes(lamports)
}

/// Whether `ix` asks the system program to move `lamports` from `from` to
/// `to`: `from` signs and is written to, `to` is written to.
pub open spec fn is_transfer(
    ix: TransferInstruction,
    from: Seq<u8>,
    to: Seq<u8>,
    lamports: u64,
) -> bool {
    &&& ix.program_id@ == system_program_id()
    &&& ix.accounts@.len() == 2
    &&& ix.accounts@[0].pubkey@ == from
    &&& ix.accounts@[0].is_signer
    &&& ix.accounts@[0].is_writable
    &&& ix.accounts@[1].pubkey@ == to
    &&& !ix.accounts@[1].is_signer
    &&& ix.accounts@[1].is_writable
    &&& ix.data@ == transfer_data(lamports)
}

/// Calls `system_instruction::transfer` of `solana_program`, as `anchor_lang`
/// hands it on, and copies the instruction it builds field by field. Not
/// proved: that the instruction is addressed to the system program, lists
/// `from` as a writable signer and `to` as writable, and holds as data the
/// variant number 2 of the system instructions followed by the amount, each
/// in fixed width and little-endian.
#[verifier::external_body]
fn system_transfer(from: &[u8; 32], to: &[u8; 32], lamports: u64) -> (ix: TransferInstruction)
    ensures
        is_transfer(ix, from@, to@, lamports),
{
    let ix = transfer(&Pubkey::new_from_array(*from), &Pubkey::new_from_array(*to), lamports);
    TransferInstruction {
        program_id: ix.program_id.to_bytes(),
        accounts: ix.accounts.iter().map(
            |m| AccountMeta {
                pubkey: m.pubkey.to_bytes(),
                is_signer: m.is_signer,
                is_writable: m.is_writable,
            },
        ).collect(),
        data: ix.data,
    }
}

/// The instruction by which a host moves the voting fee of one accepted
/// vote from the voter's account to the fee account.
pub fn voting_fee_transfer(user: &[u8; 32], fee_account: &[u8; 32]) -> (ix: TransferInstruction)
    ensures
        is_transfer(ix, user@, fee_account@, VOTING_FEE),
{
    system_transfer(user, fee_account, VOTING_FEE)
}

} // verus!
