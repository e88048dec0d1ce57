//! The fund mover: the transfers a settlement makes and their effect on balances.

use vstd::prelude::*;
use crate::error::CustomError;

verus! {

/// One account named by an instruction, with the rights the instruction asks for.
#[derive(Clone, Copy, Debug, PartialEq, Eq)]
pub struct AccountRef {
    pub key: [u8; 32],
    pub is_signer: bool,
    pub is_writable: bool,
}

/// An instruction for the custody primitive, as the host takes it.
#[derive(Debug, PartialEq, Eq)]
pub struct TransferInstruction {
    pub program_id: [u8; 32],
    pub accounts: Vec<AccountRef>,
    pub data: Vec<u8>,
}

/// What authorises a transfer.
#[derive(Clone, Copy, Debug, PartialEq, Eq)]
pub enum Authority {
    /// The sender's own signature on the request.
    Signature,
    /// The program, for the address it derives from its fixed seed and this nonce.
    Program { bump: u8 },
}

/// One directed transfer for the custody primitive to carry out.
#[derive(Debug, PartialEq, Eq)]
pub struct FundTransfer {
    pub instruction: TransferInstruction,
    pub authority: Authority,
}

/// The eight bytes of `x`, least significant first.
pub open spec fn le_bytes(x: u64) -> Seq<u8> {
    seq![
        (x % 256) as u8,
        (x / 0x100 % 256) as u8,
        (x / 0x1_0000 % 256) as u8,
        (x / 0x100_0000 % 256) as u8,
        (x / 0x1_0000_0000 % 256) as u8,
        (x / 0x100_0000_0000 % 256) as u8,
        (x / 0x1_0000_0000_0000 % 256) as u8,
        (x / 0x100_0000_0000_0000 % 256) as u8,
    ]
}

/// The bytes of `x` spell `x`.
pub proof fn le_bytes_spell_the_number(x: u64)
    ensures
        crate::entropy::seed_of(le_bytes(x)) == x,
{
    let q1 = x / 0x100;
    let q2 = q1 / 0x100;
    let q3 = q2 / 0x100;
    let q4 = q3 / 0x100;
    let q5 = q4 / 0x100;
    let q6 = q5 / 0x100;
    let q7 = q6 / 0x100;
    assert(q2 == x / 0x1_0000);
    assert(q3 == x / 0x100_0000);
    assert(q4 == x / 0x1_0000_0000);
    assert(q5 == x / 0x100_0000_0000);
    assert(q6 == x / 0x1_0000_0000_0000);
    assert(q7 == x / 0x100_0000_0000_0000);
    assert(x == x % 256 + 0x100 * (q1 % 256 + 0x100 * (q2 % 256 + 0x100 * (q3 % 256 + 0x100 * (q4
        % 256 + 0x100 * (q5 % 256 + 0x100 * (q6 % 256 + 0x100 * q7)))))));
}

/// The data of a transfer: the instruction's tag, 2, in four bytes, then the
/// amount in eight, each least significant byte first.
pub open spec fn transfer_data(lamports: u64) -> Seq<u8> {
    seq![2u8, 0u8, 0u8, 0u8] + le_bytes(lamports)
}

/// The address of the system program, which carries transfers out: thirty-two zero bytes.
pub open spec fn system_program_id() -> Seq<u8> {
    Seq::new(32, |i: int| 0u8)
}

impl TransferInstruction {
    /// This instruction asks the system program to move `lamports` from `from`,
    /// which must sign, to `to`.
    pub open spec fn is_transfer(&self, from: [u8; 32], to: [u8; 32], lamports: u64) -> bool {
        &&& self.program_id@ == system_program_id()
        &&& self.accounts@ == seq![
            AccountRef { key: from, is_signer: true, is_writable: true },
            AccountRef { key: to, is_signer: false, is_writable: true },
        ]
        &&& self.data@ == transfer_data(lamports)
    }
}

/// Calls `solana_program::system_instruction::transfer`. Trusted, not proved:
/// the instruction it returns is addressed to the system program, whose id is
/// thirty-two zero bytes; it names `from` as writable signer and `to` as
/// writable, in this order; and its data is the bincode encoding of
/// `SystemInstruction::Transfer { lamports }`, which is the variant's index, 2,
/// as a little-endian `u32`, then the amount as a little-endian `u64`.
#[verifier::external_body]
fn system_transfer(from: &[u8; 32], to: &[u8; 32], lamports: u64) -> (ix: TransferInstruction)
    ensures
        ix.is_transfer(*from, *to, lamports),
{
    let ix = solana_program::system_instruction::transfer(
        &solana_program::pubkey::Pubkey::new_from_array(*from),
        &solana_program::pubkey::Pubkey::new_from_array(*to),
        lamports,
    );
    TransferInstruction {
        program_id: ix.program_id.to_bytes(),
        accounts: ix.accounts.iter().map(|m| AccountRef {
            key: m.pubkey.to_bytes(),
            is_signer: m.is_signer,
            is_writable: m.is_writable,
        }).collect(),
        data: ix.data,
    }
}

impl FundTransfer {
    /// This transfer moves `lamports` from `from` to `to` on the given authority.
    pub open spec fn moves(
        &self,
        from: [u8; 32],
        to: [u8; 32],
        lamports: u64,
        authority: Authority,
    ) -> bool {
        self.instruction.is_transfer(from, to, lamports) && self.authority == authority
    }
}

/// The balances of sender and receiver after a transfer, sender first: a
/// sender that cannot cover the amount gives `InsufficientFunds`, a receiver
/// whose balance would leave `u64` an `ArithmeticFault`.
pub open spec fn moved(from_balance: u64, to_balance: u64, amount: u64) -> Result<
    (u64, u64),
    CustomError,
> {
    if from_balance < amount {
        Err(CustomError::InsufficientFunds)
    } else if to_balance + amount > u64::MAX {
        Err(CustomError::ArithmeticFault)
    } else {
        Ok(((from_balance - amount) as u64, (to_balance + amount) as u64))
    }
}

/// A transfer creates and destroys nothing.
pub proof fn transfer_conserves_funds(from_balance: u64, to_balance: u64, amount: u64)
    requires
        moved(from_balance, to_balance, amount) is Ok,
    ensures
        ({
            let (debited, credited) = moved(from_balance, to_balance, amount)->Ok_0;
            debited + credited == from_balance + to_balance
        }),
{
}

/// Applies a transfer of `amount` to the balances of sender and receiver.
pub fn move_funds(from_balance: u64, to_balance: u64, amount: u64) -> (r: Result<
    (u64, u64),
    CustomError,
>)
    ensures
        r == moved(from_balance, to_balance, amount),
{
    let debited = match from_balance.checked_sub(amount) {
        Some(b) => b,
        None => return Err(CustomError::InsufficientFunds),
    };
    let credited = match to_balance.checked_add(amount) {
        Some(b) => b,
        None => return Err(CustomError::ArithmeticFault),
    };
    Ok((debited, credited))
}

/// Builds the transfer of `lamports` from `from` to `to` on the given authority.
pub fn fund_transfer(
    from: &[u8; 32],
    to: &[u8; 32],
    lamports: u64,
    authority: Authority,
) -> (t: FundTransfer)
    ensures
        t.moves(*from, *to, lamports, authority),
{
    FundTransfer { instruction: system_transfer(from, to, lamports), authority }
}

} // verus!
