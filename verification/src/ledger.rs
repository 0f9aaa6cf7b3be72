use vstd::prelude::*;
use anchor_lang::solana_program::account_info::AccountInfo;
use anchor_lang::solana_program::instruction::{AccountMeta, Instruction};
use anchor_lang::solana_program::program::invoke_signed;
use anchor_lang::solana_program::program_error::ProgramError;
use anchor_lang::solana_program::pubkey::Pubkey;
use anchor_spl::token::spl_token;
use crate::authority::AuthorityDelegate;
use crate::key::Key;

verus! {

/// The runtime's handle on one account. Nothing is read from it here: the
/// handles are passed on to the ledger call, which finds in them the accounts
/// that the instruction names.
#[verifier::external_type_specification]
#[verifier::external_body]
pub struct ExAccountInfo<'a>(AccountInfo<'a>);

/// The address of the token program, the ledger that the transfers go to.
pub const TOKEN_PROGRAM_ID: [u8; 32] = [
    6, 221, 246, 225, 215, 101, 161, 147, 217, 203, 225, 70, 206, 235, 121, 172,
    28, 180, 133, 237, 95, 91, 55, 145, 58, 140, 245, 133, 126, 255, 0, 169,
];

/// One transfer on the token ledger, as a client describes it.
#[derive(Clone, Copy, Debug, PartialEq, Eq)]
pub struct TXInstruction {
    /// The token account that pays.
    pub source: Key,
    /// The token account that receives.
    pub destination: Key,
    /// The identity that authorises the transfer.
    pub authority: Key,
    /// How many tokens move.
    pub amount: u64,
}

/// One account that an instruction names, and what the instruction may do
/// with it.
#[derive(Clone, Copy, Debug, PartialEq, Eq)]
pub struct AccountRef {
    pub key: Key,
    pub is_signer: bool,
    pub is_writable: bool,
}

/// An instruction in the form in which it is handed to the ledger.
#[derive(Debug, PartialEq, Eq)]
pub struct LedgerInstruction {
    /// The program that runs the instruction.
    pub program_id: Key,
    /// The accounts that it names, in the order in which the program expects
    /// them.
    pub accounts: Vec<AccountRef>,
    /// The instruction's payload, in the program's own encoding.
    pub data: Vec<u8>,
}

/// What an instruction holds, as mathematical values.
pub struct LedgerInstructionView {
    pub program_id: Key,
    pub accounts: Seq<AccountRef>,
    pub data: Seq<u8>,
}

impl View for LedgerInstruction {
    type V = LedgerInstructionView;

    open spec fn view(&self) -> LedgerInstructionView {
        LedgerInstructionView {
            program_id: self.program_id,
            accounts: self.accounts@,
            data: self.data@,
        }
    }
}

/// A transfer that was handed to the ledger, with the authority that signed
/// for it.
pub struct SignedTransfer {
    pub transfer: TXInstruction,
    pub signer: AuthorityDelegate,
}

impl TXInstruction {
    /// The token program's transfer instruction for this descriptor: the
    /// source and the destination writable, the authority as the one signer,
    /// and as payload the tag 3 followed by the amount in eight bytes, least
    /// significant first.
    pub open spec fn instruction(self) -> LedgerInstructionView {
        LedgerInstructionView {
            program_id: Key { bytes: TOKEN_PROGRAM_ID },
            accounts: seq![
                AccountRef { key: self.source, is_signer: false, is_writable: true },
                AccountRef { key: self.destination, is_signer: false, is_writable: true },
                AccountRef { key: self.authority, is_signer: true, is_writable: false },
            ],
            data: seq![3u8] + vstd::bytes::spec_u64_to_le_bytes(self.amount),
        }
    }

    /// The instruction that carries this transfer to the token program.
    pub fn to_ix(&self) -> (r: Result<LedgerInstruction, ProgramError>)
        ensures
            r matches Ok(ix) && ix@ == self.instruction(),
    {
        token_transfer(self)
    }
}

/// The way to the ledger: it holds the account handles that the runtime gave
/// for this call, and keeps the list of the transfers that went out through
/// it.
pub struct TransferInvoker<'info> {
    account_infos: Vec<AccountInfo<'info>>,
    issued: Ghost<Seq<SignedTransfer>>,
}

impl<'info> TransferInvoker<'info> {
    /// The transfers handed to the ledger through this invoker, oldest first.
    pub closed spec fn issued(&self) -> Seq<SignedTransfer> {
        self.issued@
    }

    /// The account handles that each call passes on.
    pub closed spec fn account_infos(&self) -> Seq<AccountInfo<'info>> {
        self.account_infos@
    }

    /// An invoker over the given account handles, through which nothing has
    /// been sent yet.
    pub fn new(account_infos: Vec<AccountInfo<'info>>) -> (r: Self)
        ensures
            r.issued() == Seq::<SignedTransfer>::empty(),
            r.account_infos() == account_infos@,
    {
        TransferInvoker { account_infos, issued: Ghost(Seq::empty()) }
    }

    /// Hands one transfer to the ledger, signed for by `signer`, and waits
    /// for the ledger's answer. The transfer is on the list whatever the
    /// answer is.
    pub fn execute(&mut self, transfer: &TXInstruction, signer: &AuthorityDelegate) -> (r: Result<(), ProgramError>)
        ensures
            final(self).issued() == old(self).issued().push(
                SignedTransfer { transfer: *transfer, signer: *signer },
            ),
            final(self).account_infos() == old(self).account_infos(),
    {
        proof {
            self.issued@ = self.issued@.push(SignedTransfer { transfer: *transfer, signer: *signer });
        }
        let ix = transfer.to_ix()?;
        let seeds = signer.signer_seeds();
        invoke_with_seeds(&ix, &self.account_infos, &seeds)
    }
}

/// Calls `spl_token::instruction::transfer` for the token program's own
/// address and without multisig signers, and copies the instruction that it
/// builds field by field. With that program address the builder does not
/// fail; it names the source and the destination as writable, the authority
/// as read-only signer, and packs the payload as one tag byte, 3, and the
/// amount in little-endian order.
#[verifier::external_body]
fn token_transfer(tx: &TXInstruction) -> (r: Result<LedgerInstruction, ProgramError>)
    ensures
        r is Ok,
        r->Ok_0@ == tx.instruction(),
{
    let source = Pubkey::from(tx.source.bytes);
    let destination = Pubkey::from(tx.destination.bytes);
    let authority = Pubkey::from(tx.authority.bytes);
    let ix = spl_token::instruction::transfer(&spl_token::ID, &source, &destination, &authority, &[], tx.amount)?;
    Ok(LedgerInstruction {
        program_id: Key { bytes: ix.program_id.to_bytes() },
        accounts: ix.accounts.iter().map(|m| AccountRef {
            key: Key { bytes: m.pubkey.to_bytes() },
            is_signer: m.is_signer,
            is_writable: m.is_writable,
        }).collect(),
        data: ix.data,
    })
}

/// Calls `invoke_signed` with the instruction, the account handles and one
/// signer whose seeds are `seeds`. Whether the ledger carries the instruction
/// out depends on the ledger's state, so nothing is claimed of the result.
/// On chain a refused call may end the whole transaction instead of
/// returning; the record is then not written at all.
#[verifier::external_body]
fn invoke_with_seeds(
    ix: &LedgerInstruction,
    account_infos: &Vec<AccountInfo<'_>>,
    seeds: &Vec<Vec<u8>>,
) -> (r: Result<(), ProgramError>) {
    let accounts = ix.accounts.iter().map(|a| AccountMeta {
        pubkey: Pubkey::from(a.key.bytes),
        is_signer: a.is_signer,
        is_writable: a.is_writable,
    }).collect();
    let instruction = Instruction { program_id: Pubkey::from(ix.program_id.bytes), accounts, data: ix.data.clone() };
    let seeds: Vec<&[u8]> = seeds.iter().map(|s| s.as_slice()).collect();
    invoke_signed(&instruction, account_infos, &[&seeds])
}

} // verus!
