use solana_program::pubkey::Pubkey;
use solana_program::system_instruction;
use wager_settlement::error::CustomError;
use wager_settlement::funds::{fund_transfer, move_funds, AccountRef, Authority};

#[test]
fn transfer_moves_the_amount_between_the_balances() {
    assert_eq!(move_funds(10, 5, 3), Ok((7, 8)));
    assert_eq!(move_funds(10, 5, 10), Ok((0, 15)));
    assert_eq!(move_funds(10, 5, 0), Ok((10, 5)));
    assert_eq!(move_funds(u64::MAX, 0, u64::MAX), Ok((0, u64::MAX)));
}

#[test]
fn transfer_beyond_the_senders_balance_is_refused() {
    assert_eq!(move_funds(10, 5, 11), Err(CustomError::InsufficientFunds));
    assert_eq!(move_funds(0, 0, 1), Err(CustomError::InsufficientFunds));
}

#[test]
fn transfer_that_overflows_the_receiver_is_a_fault() {
    assert_eq!(move_funds(10, u64::MAX - 2, 3), Err(CustomError::ArithmeticFault));
    assert_eq!(move_funds(10, u64::MAX - 3, 3), Ok((7, u64::MAX)));
}

#[test]
fn sender_is_looked_at_before_receiver() {
    assert_eq!(move_funds(1, u64::MAX, 2), Err(CustomError::InsufficientFunds));
}

#[test]
fn transfer_names_the_system_program_and_both_accounts() {
    let from = [7u8; 32];
    let to = [8u8; 32];
    let t = fund_transfer(&from, &to, 1_000_000, Authority::Signature);
    assert_eq!(t.authority, Authority::Signature);
    assert_eq!(t.instruction.program_id, [0u8; 32]);
    assert_eq!(
        t.instruction.accounts,
        vec![
            AccountRef { key: from, is_signer: true, is_writable: true },
            AccountRef { key: to, is_signer: false, is_writable: true },
        ]
    );
}

#[test]
fn transfer_payload_is_the_tag_and_the_amount_little_endian() {
    let t = fund_transfer(&[7u8; 32], &[8u8; 32], 1_000_000, Authority::Signature);
    // 1_000_000 = 0x0f4240
    assert_eq!(t.instruction.data, vec![2, 0, 0, 0, 0x40, 0x42, 0x0f, 0, 0, 0, 0, 0]);
    let big = fund_transfer(&[7u8; 32], &[8u8; 32], 0x0102_0304_0506_0708, Authority::Signature);
    assert_eq!(big.instruction.data, vec![2, 0, 0, 0, 8, 7, 6, 5, 4, 3, 2, 1]);
    let max = fund_transfer(&[7u8; 32], &[8u8; 32], u64::MAX, Authority::Signature);
    assert_eq!(
        max.instruction.data,
        vec![2, 0, 0, 0, 255, 255, 255, 255, 255, 255, 255, 255]
    );
    let none = fund_transfer(&[7u8; 32], &[8u8; 32], 0, Authority::Signature);
    assert_eq!(none.instruction.data, vec![2, 0, 0, 0, 0, 0, 0, 0, 0, 0, 0, 0]);
}

#[test]
fn transfer_is_the_system_programs_own() {
    let from = [0x11u8; 32];
    let to = [0x22u8; 32];
    let ours = fund_transfer(&from, &to, 29_250_000_000, Authority::Program { bump: 254 });
    let theirs = system_instruction::transfer(
        &Pubkey::new_from_array(from),
        &Pubkey::new_from_array(to),
        29_250_000_000,
    );
    assert_eq!(ours.authority, Authority::Program { bump: 254 });
    assert_eq!(ours.instruction.program_id, theirs.program_id.to_bytes());
    assert_eq!(ours.instruction.program_id, solana_program::system_program::id().to_bytes());
    assert_eq!(ours.instruction.data, theirs.data);
    assert_eq!(ours.instruction.accounts.len(), theirs.accounts.len());
    for (a, b) in ours.instruction.accounts.iter().zip(theirs.accounts.iter()) {
        assert_eq!(a.key, b.pubkey.to_bytes());
        assert_eq!(a.is_signer, b.is_signer);
        assert_eq!(a.is_writable, b.is_writable);
    }
}

#[test]
fn transfer_keeps_sender_and_receiver_apart() {
    let from = [1u8; 32];
    let to = [2u8; 32];
    let there = fund_transfer(&from, &to, 5, Authority::Signature);
    let back = fund_transfer(&to, &from, 5, Authority::Signature);
    assert_eq!(there.instruction.accounts[0].key, from);
    assert_eq!(there.instruction.accounts[1].key, to);
    assert_eq!(back.instruction.accounts[0].key, to);
    assert_eq!(back.instruction.accounts[1].key, from);
}
