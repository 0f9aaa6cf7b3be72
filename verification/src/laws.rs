use vstd::prelude::*;
use crate::errors::Errors;
use crate::escrow::{
    is_first_match, lemma_position_found, lemma_position_of, status_of, EscrowView, FulfillStatus,
    FulfillStep,
};
use crate::key::Key;
use crate::ledger::TXInstruction;

verus! {

/// A record that has just been made is well formed, has nothing registered
/// and nothing paid, and reports both legs as open.
pub proof fn law_fresh_record_is_open(
    base: Key,
    bump: u8,
    participants: Seq<Key>,
    amounts: Seq<u64>,
    from_keys: Seq<Key>,
    to_keys: Seq<Key>,
)
    requires
        participants.len() == 2,
        amounts.len() == 2,
        from_keys.len() == 2,
        to_keys.len() == 2,
    ensures
        ({
            let e = EscrowView::fresh(base, bump, participants, amounts, from_keys, to_keys);
            &&& e.wf()
            &&& e.is_approved == seq![false, false]
            &&& e.token_accounts == seq![None::<Key>, None::<Key>]
            &&& !e.is_executed
            &&& status_of(e.is_approved) == (FulfillStatus::Pending { first: false, second: false })
        }),
{
}

/// Whoever is not one of the two participants is turned away, whatever the
/// descriptor and the amount.
pub proof fn law_stranger_is_rejected(e: EscrowView, who: Key, ix: TXInstruction, amount: u64)
    requires
        e.wf(),
        e.participants[0] != who,
        e.participants[1] != who,
    ensures
        e.check_fulfill(who, ix, amount) == Err::<FulfillStep, Errors>(Errors::InvalidParticipant),
{
}

/// A participant who states another amount than the one owed, or hands in a
/// descriptor over another amount than the one stated, is turned away.
pub proof fn law_inexact_amount_is_rejected(
    e: EscrowView,
    who: Key,
    index: int,
    ix: TXInstruction,
    amount: u64,
)
    requires
        e.wf(),
        is_first_match(e.participants, who, index),
        amount != e.required_amounts[index] || ix.amount != amount,
    ensures
        e.check_fulfill(who, ix, amount) == Err::<FulfillStep, Errors>(
            Errors::FullfillmentAmountNotExact,
        ),
{
}

/// Paying a leg keeps the record well formed, marks that leg, takes no
/// approval back, and leaves everything but the approvals and the executed
/// flag as it was: the signing authority is the one the record was made
/// with.
pub proof fn law_approval_is_kept(e: EscrowView, index: int, other: int)
    requires
        e.wf(),
        0 <= index < 2,
        0 <= other < 2,
    ensures
        e.approve(index).wf(),
        e.approve(index).is_approved[index],
        e.is_approved[other] ==> e.approve(index).is_approved[other],
        e.is_executed ==> e.approve(index).is_executed,
        e.approve(index).is_executed <==> e.approve(index).is_approved[0] && e.approve(
            index,
        ).is_approved[1],
        e.approve(index).delegate() == e.delegate(),
        e.approve(index).participants == e.participants,
        e.approve(index).required_amounts == e.required_amounts,
        e.approve(index).from_keys == e.from_keys,
        e.approve(index).to_keys == e.to_keys,
        e.approve(index).token_accounts == e.token_accounts,
{
}

/// A record reports itself fulfilled exactly when both legs are paid.
pub proof fn law_fulfilled_means_both_paid(approved: Seq<bool>)
    requires
        approved.len() == 2,
    ensures
        status_of(approved) == FulfillStatus::Fulfilled <==> approved[0] && approved[1],
        status_of(approved) != FulfillStatus::Fulfilled ==> status_of(approved) == (
        FulfillStatus::Pending { first: approved[0], second: approved[1] }),
{
}

/// Once both legs are paid, in either order, both approvals stand, the
/// record is executed and reports itself fulfilled.
pub proof fn law_both_legs_in_either_order(e: EscrowView)
    requires
        e.wf(),
    ensures
        e.approve(0).approve(1) == e.approve(1).approve(0),
        e.approve(0).approve(1).is_approved == seq![true, true],
        e.approve(0).approve(1).is_executed,
        status_of(e.approve(0).approve(1).is_approved) == FulfillStatus::Fulfilled,
{
    assert(e.approve(0).approve(1).is_approved =~= seq![true, true]);
    assert(e.approve(1).approve(0).is_approved =~= seq![true, true]);
}

/// Two distinct participants who each offer what they owe complete the swap,
/// whoever pays first: each payment is due when it is made, the first leaves
/// the record pending, the second fulfils it, and from then on either
/// participant's request is settled without a transfer.
pub proof fn law_swap_completes_in_either_order(
    e: EscrowView,
    first: TXInstruction,
    second: TXInstruction,
)
    requires
        e.wf(),
        e.participants[0] != e.participants[1],
        !e.is_approved[0],
        !e.is_approved[1],
        first.amount == e.required_amounts[0],
        second.amount == e.required_amounts[1],
    ensures
        ({
            let a = e.participants[0];
            let b = e.participants[1];
            let due_a = Ok::<FulfillStep, Errors>(FulfillStep::Transfer { index: 0 });
            let due_b = Ok::<FulfillStep, Errors>(FulfillStep::Transfer { index: 1 });
            let settled = Ok::<FulfillStep, Errors>(FulfillStep::Settled);
            let both = e.approve(0).approve(1);
            &&& e.check_fulfill(a, first, first.amount) == due_a
            &&& e.check_fulfill(b, second, second.amount) == due_b
            &&& status_of(e.approve(0).is_approved) == (FulfillStatus::Pending {
                first: true,
                second: false,
            })
            &&& status_of(e.approve(1).is_approved) == (FulfillStatus::Pending {
                first: false,
                second: true,
            })
            &&& e.approve(0).check_fulfill(b, second, second.amount) == due_b
            &&& e.approve(1).check_fulfill(a, first, first.amount) == due_a
            &&& e.approve(1).approve(0) == both
            &&& both.is_approved == seq![true, true]
            &&& status_of(both.is_approved) == FulfillStatus::Fulfilled
            &&& both.check_fulfill(a, first, first.amount) == settled
            &&& both.check_fulfill(b, second, second.amount) == settled
        }),
{
    let a = e.participants[0];
    let b = e.participants[1];
    lemma_position_of(e.participants, a, 0);
    lemma_position_of(e.participants, b, 1);
    law_both_legs_in_either_order(e);
}

/// A participant whose transfer was due and went through has nothing left
/// to pay: the same request, made again, is settled without a transfer.
pub proof fn law_paid_leg_is_settled(
    e: EscrowView,
    who: Key,
    index: usize,
    ix: TXInstruction,
    amount: u64,
)
    requires
        e.wf(),
        e.check_fulfill(who, ix, amount) == Ok::<FulfillStep, Errors>(
            FulfillStep::Transfer { index },
        ),
    ensures
        e.approve(index as int).check_fulfill(who, ix, amount) == Ok::<FulfillStep, Errors>(
            FulfillStep::Settled,
        ),
{
    lemma_position_found(e.participants, who);
}

/// On a record with both legs paid no request leads to a transfer.
pub proof fn law_fulfilled_record_sends_nothing(
    e: EscrowView,
    who: Key,
    ix: TXInstruction,
    amount: u64,
)
    requires
        e.wf(),
        e.is_approved[0],
        e.is_approved[1],
    ensures
        !(e.check_fulfill(who, ix, amount) matches Ok(FulfillStep::Transfer { .. })),
{
    lemma_position_found(e.participants, who);
}

/// A holding account is written at most once: registering keeps the record
/// well formed, its approvals and its signing authority, and a second
/// registration by the same party changes nothing.
pub proof fn law_holding_account_is_written_once(
    e: EscrowView,
    index: int,
    first: Key,
    second: Key,
)
    requires
        e.wf(),
        0 <= index < 2,
    ensures
        e.register(index, first).wf(),
        e.register(index, first).is_approved == e.is_approved,
        e.register(index, first).is_executed == e.is_executed,
        e.register(index, first).delegate() == e.delegate(),
        e.token_accounts[index] is None ==> e.register(index, first).token_accounts[index] == Some(
            first,
        ),
        e.token_accounts[index] is Some ==> e.register(index, first) == e,
        e.register(index, first).register(index, second) == e.register(index, first),
{
}

} // verus!
