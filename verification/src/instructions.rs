use vstd::prelude::*;
use anchor_lang::solana_program::program_error::ProgramError;
use crate::errors::{Errors, FulfillError};
use crate::escrow::{position_of, status_of, Escrow, EscrowView, FulfillStatus, FulfillStep, PARTIES};
use crate::key::Key;
use crate::ledger::{SignedTransfer, TXInstruction, TransferInvoker};

verus! {

/// What an operation that touches no account is given.
#[derive(Clone, Copy, Debug, PartialEq, Eq, Structural)]
pub struct NoAccounts {}

/// What the creation of a record is given besides its arguments.
#[derive(Clone, Copy, Debug)]
pub struct CreateEscrow {
    /// The key from which the record's address and authority are derived.
    pub base: Key,
}

/// What the registration of a holding account is given.
#[derive(Debug)]
pub struct CreateTokenAccount {
    /// The caller.
    pub signer: Key,
    /// The record that the account is registered in.
    pub escrow: Escrow,
    /// The account to register.
    pub token_account: Key,
}

/// What a fulfilment is given besides its arguments.
pub struct ExecuteTransferInstruction<'info> {
    /// The caller.
    pub authority: Key,
    /// The record whose leg is paid.
    pub escrow: Escrow,
    /// The way to the ledger.
    pub invoker: TransferInvoker<'info>,
}

/// Every list of a creation has one entry per party.
pub open spec fn two_of_each(
    participants: Seq<Key>,
    amounts: Seq<u64>,
    from_keys: Seq<Key>,
    to_keys: Seq<Key>,
) -> bool {
    participants.len() == 2 && amounts.len() == 2 && from_keys.len() == 2 && to_keys.len() == 2
}

/// Makes the record of a new swap. Each of the four lists must have exactly
/// two entries; otherwise no record comes into being. The new record has
/// nothing registered and nothing paid.
pub fn create_escrow(
    ctx: &CreateEscrow,
    participants: Vec<Key>,
    amounts: Vec<u64>,
    from_keys: Vec<Key>,
    to_keys: Vec<Key>,
    bump: u8,
) -> (r: Result<Escrow, Errors>)
    ensures
        two_of_each(participants@, amounts@, from_keys@, to_keys@) <==> r is Ok,
        r matches Ok(escrow) ==> escrow.wf() && escrow@ == EscrowView::fresh(
            ctx.base,
            bump,
            participants@,
            amounts@,
            from_keys@,
            to_keys@,
        ),
        r matches Err(e) ==> e == Errors::ExactlyTwoParticipantsAllowed,
{
    if !(participants.len() == PARTIES && amounts.len() == PARTIES && from_keys.len() == PARTIES
        && to_keys.len() == PARTIES) {
        return Err(Errors::ExactlyTwoParticipantsAllowed);
    }
    let token_accounts: Vec<Option<Key>> = vec![None, None];
    let is_approved: Vec<bool> = vec![false, false];
    let escrow = Escrow {
        base: ctx.base,
        bump,
        participants,
        from_keys,
        to_keys,
        required_amounts: amounts,
        token_accounts,
        is_approved,
        is_executed: false,
    };
    Ok(escrow)
}

/// Registers the caller's holding account in the record. The caller must be
/// a participant. The account is written once: where the caller has one
/// registered already, the record stays as it is.
pub fn create_token_account(ctx: &mut CreateTokenAccount) -> (r: Result<(), Errors>)
    requires
        old(ctx).escrow.wf(),
    ensures
        final(ctx).escrow.wf(),
        final(ctx).signer == old(ctx).signer,
        final(ctx).token_account == old(ctx).token_account,
        match position_of(old(ctx).escrow@.participants, old(ctx).signer) {
            None => r == Err::<(), Errors>(Errors::InvalidParticipant) && final(ctx).escrow@ == old(
                ctx,
            ).escrow@,
            Some(i) => r == Ok::<(), Errors>(()) && final(ctx).escrow@ == old(ctx).escrow@.register(
                i,
                old(ctx).token_account,
            ),
        },
{
    let index = match ctx.escrow.position(&ctx.signer) {
        None => {
            return Err(Errors::InvalidParticipant);
        },
        Some(i) => i,
    };
    if ctx.escrow.token_accounts[index].is_none() {
        ctx.escrow.token_accounts.set(index, Some(ctx.token_account));
    }
    Ok(())
}

/// Closes a fulfilment once the ledger has answered. If the transfer went
/// through, the leg at `index` is marked as paid, and the result says whether
/// both legs now are. If the ledger refused, the record stays as it was and
/// the ledger's error is handed on.
pub fn settle(escrow: &mut Escrow, index: usize, outcome: Result<(), ProgramError>) -> (r: Result<
    FulfillStatus,
    FulfillError,
>)
    requires
        old(escrow).wf(),
        index < 2,
    ensures
        final(escrow).wf(),
        match outcome {
            Ok(_) => final(escrow)@ == old(escrow)@.approve(index as int) && r == Ok::<
                FulfillStatus,
                FulfillError,
            >(status_of(final(escrow)@.is_approved)),
            Err(e) => final(escrow)@ == old(escrow)@ && r == Err::<FulfillStatus, FulfillError>(
                FulfillError::Ledger(e),
            ),
        },
{
    match outcome {
        Ok(_) => {
            escrow.is_approved.set(index, true);
            escrow.is_executed = escrow.is_approved[0] && escrow.is_approved[1];
            Ok(escrow.status())
        },
        Err(e) => Err(FulfillError::Ledger(e)),
    }
}

/// Pays the caller's leg. The caller must be a participant, and the amount
/// stated, the amount in the descriptor and the amount that the record asks
/// of the caller must be the same. A leg that is paid already is not paid
/// again: the call reports the record's status and sends nothing. Otherwise
/// one transfer is handed to the ledger, from the leg's source to its
/// destination and signed for by the record's authority, and the leg counts
/// as paid only if the ledger carried it out.
pub fn fullfill(ctx: &mut ExecuteTransferInstruction<'_>, ix: TXInstruction, amount: u64) -> (r:
    Result<FulfillStatus, FulfillError>)
    requires
        old(ctx).escrow.wf(),
    ensures
        final(ctx).escrow.wf(),
        final(ctx).authority == old(ctx).authority,
        final(ctx).invoker.account_infos() == old(ctx).invoker.account_infos(),
        match old(ctx).escrow@.check_fulfill(old(ctx).authority, ix, amount) {
            Err(e) => {
                &&& r == Err::<FulfillStatus, FulfillError>(FulfillError::Rejected(e))
                &&& final(ctx).escrow@ == old(ctx).escrow@
                &&& final(ctx).invoker.issued() == old(ctx).invoker.issued()
            },
            Ok(FulfillStep::Settled) => {
                &&& r == Ok::<FulfillStatus, FulfillError>(status_of(old(ctx).escrow@.is_approved))
                &&& final(ctx).escrow@ == old(ctx).escrow@
                &&& final(ctx).invoker.issued() == old(ctx).invoker.issued()
            },
            Ok(FulfillStep::Transfer { index }) => {
                &&& final(ctx).invoker.issued() == old(ctx).invoker.issued().push(
                    SignedTransfer {
                        transfer: old(ctx).escrow@.leg_transfer(index as int, ix),
                        signer: old(ctx).escrow@.delegate(),
                    },
                )
                &&& match r {
                    Ok(status) => {
                        &&& final(ctx).escrow@ == old(ctx).escrow@.approve(index as int)
                        &&& status == status_of(final(ctx).escrow@.is_approved)
                    },
                    Err(e) => e is Ledger && final(ctx).escrow@ == old(ctx).escrow@,
                }
            },
        },
{
    let index = match ctx.escrow.check_fulfill(&ctx.authority, &ix, amount) {
        Err(e) => {
            return Err(FulfillError::Rejected(e));
        },
        Ok(FulfillStep::Settled) => {
            return Ok(ctx.escrow.status());
        },
        Ok(FulfillStep::Transfer { index }) => index,
    };
    proof {
        crate::escrow::lemma_position_found(ctx.escrow@.participants, ctx.authority);
    }
    let transfer = ctx.escrow.leg_transfer(index, &ix);
    let signer = ctx.escrow.delegate();
    let outcome = ctx.invoker.execute(&transfer, &signer);
    settle(&mut ctx.escrow, index, outcome)
}

} // verus!
