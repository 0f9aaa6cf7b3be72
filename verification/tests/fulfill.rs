use std::sync::{Arc, Mutex};

use anchor_lang::compat::solana_sysvar::program_stubs::{set_syscall_stubs, SyscallStubs};
use anchor_lang::solana_program::account_info::AccountInfo;
use anchor_lang::solana_program::entrypoint::ProgramResult;
use anchor_lang::solana_program::instruction::Instruction;
use anchor_lang::solana_program::program_error::ProgramError;
use anchor_lang::solana_program::pubkey::Pubkey;
use anchor_spl::token::spl_token;
use sol_spl_escrow::{
    create_escrow, fullfill, AuthorityDelegate, CreateEscrow, Errors, Escrow,
    ExecuteTransferInstruction, FulfillError, FulfillStatus, Key, TXInstruction, TransferInvoker,
};

/// One call that reached the ledger: the instruction, how many account
/// handles came with it, and the signers' seeds.
struct Call {
    instruction: Instruction,
    handles: usize,
    seeds: Vec<Vec<Vec<u8>>>,
}

/// A ledger that notes every call and answers each with the same result.
struct Ledger {
    calls: Arc<Mutex<Vec<Call>>>,
    answer: ProgramResult,
}

impl SyscallStubs for Ledger {
    fn sol_invoke_signed(
        &self,
        instruction: &Instruction,
        account_infos: &[AccountInfo],
        signers_seeds: &[&[&[u8]]],
    ) -> ProgramResult {
        self.calls.lock().unwrap().push(Call {
            instruction: instruction.clone(),
            handles: account_infos.len(),
            seeds: signers_seeds
                .iter()
                .map(|signer| signer.iter().map(|seed| seed.to_vec()).collect())
                .collect(),
        });
        self.answer.clone()
    }
}

fn ledger(answer: ProgramResult) -> Arc<Mutex<Vec<Call>>> {
    let calls = Arc::new(Mutex::new(Vec::new()));
    set_syscall_stubs(Box::new(Ledger { calls: calls.clone(), answer }));
    calls
}

fn key(n: u8) -> Key {
    Key { bytes: [n; 32] }
}

const A: u8 = 1;
const B: u8 = 2;
const C: u8 = 3;

fn record() -> Escrow {
    create_escrow(
        &CreateEscrow { base: key(9) },
        vec![key(A), key(B)],
        vec![100, 200],
        vec![key(11), key(12)],
        vec![key(21), key(22)],
        254,
    )
    .unwrap()
}

fn context<'a>(who: u8, escrow: Escrow) -> ExecuteTransferInstruction<'a> {
    ExecuteTransferInstruction {
        authority: key(who),
        escrow,
        invoker: TransferInvoker::new(Vec::new()),
    }
}

fn leg_of_a(amount: u64) -> TXInstruction {
    TXInstruction { source: key(11), destination: key(21), authority: key(30), amount }
}

fn leg_of_b(amount: u64) -> TXInstruction {
    TXInstruction { source: key(12), destination: key(22), authority: key(30), amount }
}

#[test]
fn first_fulfilment_is_pending() {
    let calls = ledger(Ok(()));
    let mut ctx = context(A, record());
    let r = fullfill(&mut ctx, leg_of_a(100), 100);
    assert_eq!(r, Ok(FulfillStatus::Pending { first: true, second: false }));
    assert_eq!(ctx.escrow.is_approved, vec![true, false]);
    assert!(!ctx.escrow.is_executed);
    assert_eq!(ctx.authority, key(A));
    assert_eq!(calls.lock().unwrap().len(), 1);
}

#[test]
fn second_participant_alone_is_pending() {
    let calls = ledger(Ok(()));
    let mut ctx = context(B, record());
    let r = fullfill(&mut ctx, leg_of_b(200), 200);
    assert_eq!(r, Ok(FulfillStatus::Pending { first: false, second: true }));
    assert_eq!(ctx.escrow.is_approved, vec![false, true]);
    assert_eq!(calls.lock().unwrap().len(), 1);
}

#[test]
fn inexact_amount_is_rejected() {
    let calls = ledger(Ok(()));
    let mut ctx = context(A, record());
    let r = fullfill(&mut ctx, leg_of_a(99), 99);
    assert_eq!(r, Err(FulfillError::Rejected(Errors::FullfillmentAmountNotExact)));
    assert_eq!(ctx.escrow.is_approved, vec![false, false]);
    assert_eq!(ctx.escrow, record());
    assert_eq!(calls.lock().unwrap().len(), 0);
}

#[test]
fn amount_of_the_other_leg_is_rejected() {
    let calls = ledger(Ok(()));
    let mut ctx = context(A, record());
    let r = fullfill(&mut ctx, leg_of_a(200), 200);
    assert_eq!(r, Err(FulfillError::Rejected(Errors::FullfillmentAmountNotExact)));
    assert_eq!(ctx.escrow.is_approved, vec![false, false]);
    assert_eq!(calls.lock().unwrap().len(), 0);
}

#[test]
fn descriptor_over_another_amount_is_rejected() {
    let calls = ledger(Ok(()));
    let mut ctx = context(A, record());
    let r = fullfill(&mut ctx, leg_of_a(1_000_000), 100);
    assert_eq!(r, Err(FulfillError::Rejected(Errors::FullfillmentAmountNotExact)));
    assert_eq!(ctx.escrow.is_approved, vec![false, false]);
    assert_eq!(calls.lock().unwrap().len(), 0);
}

#[test]
fn stranger_is_rejected() {
    let calls = ledger(Ok(()));
    let mut ctx = context(C, record());
    let r = fullfill(&mut ctx, leg_of_a(100), 100);
    assert_eq!(r, Err(FulfillError::Rejected(Errors::InvalidParticipant)));
    assert_eq!(ctx.escrow, record());
    assert_eq!(calls.lock().unwrap().len(), 0);
}

#[test]
fn both_legs_first_then_second() {
    let calls = ledger(Ok(()));
    let mut ctx = context(A, record());
    assert_eq!(
        fullfill(&mut ctx, leg_of_a(100), 100),
        Ok(FulfillStatus::Pending { first: true, second: false })
    );
    let mut ctx = context(B, ctx.escrow);
    assert_eq!(fullfill(&mut ctx, leg_of_b(200), 200), Ok(FulfillStatus::Fulfilled));
    assert_eq!(ctx.escrow.is_approved, vec![true, true]);
    assert!(ctx.escrow.is_executed);
    assert_eq!(calls.lock().unwrap().len(), 2);
}

#[test]
fn both_legs_second_then_first() {
    let calls = ledger(Ok(()));
    let mut ctx = context(B, record());
    assert_eq!(
        fullfill(&mut ctx, leg_of_b(200), 200),
        Ok(FulfillStatus::Pending { first: false, second: true })
    );
    let mut ctx = context(A, ctx.escrow);
    assert_eq!(fullfill(&mut ctx, leg_of_a(100), 100), Ok(FulfillStatus::Fulfilled));
    assert_eq!(ctx.escrow.is_approved, vec![true, true]);
    assert!(ctx.escrow.is_executed);
    assert_eq!(calls.lock().unwrap().len(), 2);
}

#[test]
fn paid_leg_is_not_paid_again() {
    let calls = ledger(Ok(()));
    let mut ctx = context(A, record());
    fullfill(&mut ctx, leg_of_a(100), 100).unwrap();
    assert_eq!(calls.lock().unwrap().len(), 1);
    assert_eq!(
        fullfill(&mut ctx, leg_of_a(100), 100),
        Ok(FulfillStatus::Pending { first: true, second: false })
    );
    assert_eq!(calls.lock().unwrap().len(), 1);
    assert_eq!(ctx.escrow.is_approved, vec![true, false]);
}

#[test]
fn fulfilled_record_sends_nothing_more() {
    let calls = ledger(Ok(()));
    let mut ctx = context(A, record());
    fullfill(&mut ctx, leg_of_a(100), 100).unwrap();
    let mut ctx = context(B, ctx.escrow);
    fullfill(&mut ctx, leg_of_b(200), 200).unwrap();
    assert_eq!(calls.lock().unwrap().len(), 2);
    assert_eq!(fullfill(&mut ctx, leg_of_b(200), 200), Ok(FulfillStatus::Fulfilled));
    let mut ctx = context(A, ctx.escrow);
    assert_eq!(fullfill(&mut ctx, leg_of_a(100), 100), Ok(FulfillStatus::Fulfilled));
    assert_eq!(calls.lock().unwrap().len(), 2);
    assert_eq!(ctx.escrow.is_approved, vec![true, true]);
    assert!(ctx.escrow.is_executed);
}

#[test]
fn refused_transfer_leaves_the_leg_open() {
    let calls = ledger(Err(ProgramError::InsufficientFunds));
    let mut ctx = context(A, record());
    let r = fullfill(&mut ctx, leg_of_a(100), 100);
    assert_eq!(r, Err(FulfillError::Ledger(ProgramError::InsufficientFunds)));
    assert_eq!(ctx.escrow.is_approved, vec![false, false]);
    assert!(!ctx.escrow.is_executed);
    assert_eq!(ctx.escrow, record());
    assert_eq!(calls.lock().unwrap().len(), 1);
}

#[test]
fn refused_transfer_can_be_made_again() {
    let refused = ledger(Err(ProgramError::Custom(1)));
    let mut ctx = context(A, record());
    assert_eq!(
        fullfill(&mut ctx, leg_of_a(100), 100),
        Err(FulfillError::Ledger(ProgramError::Custom(1)))
    );
    assert_eq!(refused.lock().unwrap().len(), 1);
    let accepted = ledger(Ok(()));
    assert_eq!(
        fullfill(&mut ctx, leg_of_a(100), 100),
        Ok(FulfillStatus::Pending { first: true, second: false })
    );
    assert_eq!(accepted.lock().unwrap().len(), 1);
    assert_eq!(ctx.escrow.is_approved, vec![true, false]);
}

#[test]
fn refused_second_leg_keeps_the_first() {
    ledger(Ok(()));
    let mut ctx = context(A, record());
    fullfill(&mut ctx, leg_of_a(100), 100).unwrap();
    ledger(Err(ProgramError::InsufficientFunds));
    let mut ctx = context(B, ctx.escrow);
    assert_eq!(
        fullfill(&mut ctx, leg_of_b(200), 200),
        Err(FulfillError::Ledger(ProgramError::InsufficientFunds))
    );
    assert_eq!(ctx.escrow.is_approved, vec![true, false]);
    assert!(!ctx.escrow.is_executed);
}

#[test]
fn ledger_gets_the_transfer_and_the_seeds() {
    let calls = ledger(Ok(()));
    let mut ctx = context(A, record());
    fullfill(&mut ctx, leg_of_a(100), 100).unwrap();
    let calls = calls.lock().unwrap();
    assert_eq!(calls.len(), 1);
    let expected = spl_token::instruction::transfer(
        &spl_token::ID,
        &Pubkey::from([11u8; 32]),
        &Pubkey::from([21u8; 32]),
        &Pubkey::from([30u8; 32]),
        &[],
        100,
    )
    .unwrap();
    assert_eq!(calls[0].instruction, expected);
    assert_eq!(calls[0].instruction.data, vec![3, 100, 0, 0, 0, 0, 0, 0, 0]);
    assert_eq!(calls[0].seeds, vec![vec![vec![9u8; 32], vec![254u8]]]);
    assert_eq!(calls[0].handles, 0);
}

#[test]
fn transfer_goes_along_the_recorded_leg() {
    let calls = ledger(Ok(()));
    let mut ctx = context(B, record());
    let elsewhere =
        TXInstruction { source: key(50), destination: key(60), authority: key(31), amount: 200 };
    assert_eq!(
        fullfill(&mut ctx, elsewhere, 200),
        Ok(FulfillStatus::Pending { first: false, second: true })
    );
    let calls = calls.lock().unwrap();
    assert_eq!(calls.len(), 1);
    let expected = spl_token::instruction::transfer(
        &spl_token::ID,
        &Pubkey::from([12u8; 32]),
        &Pubkey::from([22u8; 32]),
        &Pubkey::from([31u8; 32]),
        &[],
        200,
    )
    .unwrap();
    assert_eq!(calls[0].instruction, expected);
    assert_eq!(calls[0].seeds, vec![vec![vec![9u8; 32], vec![254u8]]]);
}

#[test]
fn ledger_gets_the_account_handles() {
    let calls = ledger(Ok(()));
    let owner = spl_token::ID;
    let source = Pubkey::from([11u8; 32]);
    let destination = Pubkey::from([21u8; 32]);
    let (mut lamports_a, mut lamports_b) = (1u64, 1u64);
    let (mut data_a, mut data_b) = ([0u8; 8], [0u8; 8]);
    let handles = vec![
        AccountInfo::new(&source, false, true, &mut lamports_a, &mut data_a, &owner, false),
        AccountInfo::new(&destination, false, true, &mut lamports_b, &mut data_b, &owner, false),
    ];
    let mut ctx = ExecuteTransferInstruction {
        authority: key(B),
        escrow: record(),
        invoker: TransferInvoker::new(handles),
    };
    assert_eq!(
        fullfill(&mut ctx, leg_of_b(200), 200),
        Ok(FulfillStatus::Pending { first: false, second: true })
    );
    let calls = calls.lock().unwrap();
    assert_eq!(calls.len(), 1);
    assert_eq!(calls[0].handles, 2);
    assert_eq!(calls[0].instruction.accounts[0].pubkey, Pubkey::from([12u8; 32]));
    assert_eq!(calls[0].instruction.accounts[1].pubkey, Pubkey::from([22u8; 32]));
    assert_eq!(calls[0].instruction.accounts[2].pubkey, Pubkey::from([30u8; 32]));
}

#[test]
fn invoker_hands_over_what_it_is_given() {
    let calls = ledger(Ok(()));
    let mut invoker = TransferInvoker::new(Vec::new());
    let transfer =
        TXInstruction { source: key(70), destination: key(71), authority: key(72), amount: 5 };
    let signer = AuthorityDelegate { base: key(73), bump: 1 };
    assert_eq!(invoker.execute(&transfer, &signer), Ok(()));
    let calls = calls.lock().unwrap();
    assert_eq!(calls.len(), 1);
    assert_eq!(calls[0].instruction.program_id, spl_token::ID);
    assert_eq!(calls[0].instruction.accounts[0].pubkey, Pubkey::from([70u8; 32]));
    assert_eq!(calls[0].instruction.accounts[1].pubkey, Pubkey::from([71u8; 32]));
    assert_eq!(calls[0].instruction.accounts[2].pubkey, Pubkey::from([72u8; 32]));
    assert_eq!(calls[0].instruction.data, vec![3, 5, 0, 0, 0, 0, 0, 0, 0]);
    assert_eq!(calls[0].seeds, vec![vec![vec![73u8; 32], vec![1u8]]]);
}

#[test]
fn invoker_hands_on_the_ledgers_refusal() {
    let calls = ledger(Err(ProgramError::InvalidAccountData));
    let mut invoker = TransferInvoker::new(Vec::new());
    let transfer =
        TXInstruction { source: key(70), destination: key(71), authority: key(72), amount: 5 };
    let signer = AuthorityDelegate { base: key(73), bump: 1 };
    assert_eq!(invoker.execute(&transfer, &signer), Err(ProgramError::InvalidAccountData));
    assert_eq!(calls.lock().unwrap().len(), 1);
}
