use vstd::prelude::*;
use crate::authority::AuthorityDelegate;
use crate::errors::Errors;
use crate::key::Key;
use crate::ledger::TXInstruction;

verus! {

/// How many participants one record binds.
pub const PARTIES: usize = 2;

/// The state of one swap: who owes what, where each leg goes, and which legs
/// have been paid.
///
/// The two transfers are the swap: there is no further release once both are
/// made. An approval, once given, is never taken back, and the record counts
/// as executed from the moment the second leg is paid.
#[derive(Debug, PartialEq, Eq)]
pub struct Escrow {
    /// The key from which the record's address and its signing authority are
    /// derived.
    pub base: Key,
    /// The bump that completes the derivation; fixed when the record is made.
    pub bump: u8,
    /// The two parties.
    pub participants: Vec<Key>,
    /// The account that each party pays from.
    pub from_keys: Vec<Key>,
    /// The account that each party's payment goes to.
    pub to_keys: Vec<Key>,
    /// What each party owes.
    pub required_amounts: Vec<u64>,
    /// The token account that each party has registered, if any.
    pub token_accounts: Vec<Option<Key>>,
    /// Whether each party has paid.
    pub is_approved: Vec<bool>,
    /// Whether both have.
    pub is_executed: bool,
}

/// What a record holds, as mathematical values.
pub struct EscrowView {
    pub base: Key,
    pub bump: u8,
    pub participants: Seq<Key>,
    pub from_keys: Seq<Key>,
    pub to_keys: Seq<Key>,
    pub required_amounts: Seq<u64>,
    pub token_accounts: Seq<Option<Key>>,
    pub is_approved: Seq<bool>,
    pub is_executed: bool,
}

/// What a fulfilment reports once it has gone through.
#[derive(Clone, Copy, Debug, PartialEq, Eq, Structural)]
pub enum FulfillStatus {
    /// A leg is still open; the two flags are the approvals as they stand.
    Pending { first: bool, second: bool },
    /// Both legs are paid.
    Fulfilled,
}

/// What is left to do for a fulfilment that breaks no rule.
#[derive(Clone, Copy, Debug, PartialEq, Eq, Structural)]
pub enum FulfillStep {
    /// The caller's leg is paid already: nothing is sent to the ledger.
    Settled,
    /// The leg at this position is open: its transfer is due.
    Transfer { index: usize },
}

/// The position of the first entry of `keys` that equals `who`.
pub open spec fn position_of(keys: Seq<Key>, who: Key) -> Option<int> {
    if exists|i: int| 0 <= i < keys.len() && keys[i] == who {
        Some(choose|i: int| is_first_match(keys, who, i))
    } else {
        None
    }
}

/// `i` is the least position at which `keys` holds `who`.
pub open spec fn is_first_match(keys: Seq<Key>, who: Key, i: int) -> bool {
    &&& 0 <= i < keys.len()
    &&& keys[i] == who
    &&& forall|j: int| 0 <= j < i ==> keys[j] != who
}

/// The status that a vector of approvals amounts to.
pub open spec fn status_of(approved: Seq<bool>) -> FulfillStatus
    recommends
        approved.len() == 2,
{
    if approved[0] && approved[1] {
        FulfillStatus::Fulfilled
    } else {
        FulfillStatus::Pending { first: approved[0], second: approved[1] }
    }
}

impl EscrowView {
    /// The record as it is right after creation: nothing registered, nothing
    /// paid.
    pub open spec fn fresh(
        base: Key,
        bump: u8,
        participants: Seq<Key>,
        amounts: Seq<u64>,
        from_keys: Seq<Key>,
        to_keys: Seq<Key>,
    ) -> EscrowView {
        EscrowView {
            base,
            bump,
            participants,
            from_keys,
            to_keys,
            required_amounts: amounts,
            token_accounts: seq![None, None],
            is_approved: seq![false, false],
            is_executed: false,
        }
    }

    /// Every list has one entry per party, and the record counts as executed
    /// only if both legs are paid.
    pub open spec fn wf(self) -> bool {
        &&& self.participants.len() == 2
        &&& self.from_keys.len() == 2
        &&& self.to_keys.len() == 2
        &&& self.required_amounts.len() == 2
        &&& self.token_accounts.len() == 2
        &&& self.is_approved.len() == 2
        &&& self.is_executed ==> self.is_approved[0] && self.is_approved[1]
    }

    /// The record after the leg at `index` has been paid.
    pub open spec fn approve(self, index: int) -> EscrowView {
        let approved = self.is_approved.update(index, true);
        EscrowView {
            is_approved: approved,
            is_executed: approved[0] && approved[1],
            ..self
        }
    }

    /// The record after the party at `index` has registered `account`. A
    /// holding account is written once: a second registration changes nothing.
    pub open spec fn register(self, index: int, account: Key) -> EscrowView {
        if self.token_accounts[index] is None {
            EscrowView { token_accounts: self.token_accounts.update(index, Some(account)), ..self }
        } else {
            self
        }
    }

    /// The authority that signs for this record's transfers.
    pub open spec fn delegate(self) -> AuthorityDelegate {
        AuthorityDelegate { base: self.base, bump: self.bump }
    }

    /// The transfer that pays the leg at `index`: from the leg's source to
    /// its destination, as the record names them, for the amount and under
    /// the authority that the descriptor `ix` states.
    pub open spec fn leg_transfer(self, index: int, ix: TXInstruction) -> TXInstruction {
        TXInstruction {
            source: self.from_keys[index],
            destination: self.to_keys[index],
            authority: ix.authority,
            amount: ix.amount,
        }
    }

    /// What the rules say of a fulfilment by `who` with descriptor `ix` and
    /// the stated `amount`: the rule it breaks, or what is left to do.
    pub open spec fn check_fulfill(self, who: Key, ix: TXInstruction, amount: u64) -> Result<
        FulfillStep,
        Errors,
    > {
        match position_of(self.participants, who) {
            None => Err(Errors::InvalidParticipant),
            Some(i) => if amount != self.required_amounts[i] || ix.amount != amount {
                Err(Errors::FullfillmentAmountNotExact)
            } else if self.is_approved[i] {
                Ok(FulfillStep::Settled)
            } else {
                Ok(FulfillStep::Transfer { index: i as usize })
            },
        }
    }
}

impl View for Escrow {
    type V = EscrowView;

    open spec fn view(&self) -> EscrowView {
        EscrowView {
            base: self.base,
            bump: self.bump,
            participants: self.participants@,
            from_keys: self.from_keys@,
            to_keys: self.to_keys@,
            required_amounts: self.required_amounts@,
            token_accounts: self.token_accounts@,
            is_approved: self.is_approved@,
            is_executed: self.is_executed,
        }
    }
}

/// The least position with the key is the one that `position_of` names.
pub proof fn lemma_position_of(keys: Seq<Key>, who: Key, i: int)
    requires
        is_first_match(keys, who, i),
    ensures
        position_of(keys, who) == Some(i),
{
}

/// Where `position_of` names a position, it is the least one with the key.
pub proof fn lemma_position_found(keys: Seq<Key>, who: Key)
    ensures
        match position_of(keys, who) {
            Some(i) => is_first_match(keys, who, i),
            None => forall|j: int| 0 <= j < keys.len() ==> keys[j] != who,
        },
{
    if exists|i: int| 0 <= i < keys.len() && keys[i] == who {
        let i = choose|i: int| 0 <= i < keys.len() && keys[i] == who;
        lemma_first_match_exists(keys, who, i);
    }
}

/// A list that holds the key at `i` holds it at a least position.
proof fn lemma_first_match_exists(keys: Seq<Key>, who: Key, i: int)
    requires
        0 <= i < keys.len(),
        keys[i] == who,
    ensures
        exists|k: int| is_first_match(keys, who, k),
    decreases i,
{
    if exists|j: int| 0 <= j < i && keys[j] == who {
        let j = choose|j: int| 0 <= j < i && keys[j] == who;
        lemma_first_match_exists(keys, who, j);
    } else {
        assert(is_first_match(keys, who, i));
    }
}

impl Escrow {
    /// The record has its shape: see `EscrowView::wf`.
    pub open spec fn wf(&self) -> bool {
        self@.wf()
    }

    /// Whether the record has its shape: two entries in every list, and
    /// executed only if both legs are paid.
    pub fn is_well_formed(&self) -> (r: bool)
        ensures
            r == self.wf(),
    {
        self.participants.len() == PARTIES && self.from_keys.len() == PARTIES
            && self.to_keys.len() == PARTIES && self.required_amounts.len() == PARTIES
            && self.token_accounts.len() == PARTIES && self.is_approved.len() == PARTIES && (
        !self.is_executed || (self.is_approved[0] && self.is_approved[1]))
    }

    /// Where `who` stands among the participants, if at all.
    pub fn position(&self, who: &Key) -> (r: Option<usize>)
        ensures
            match r {
                Some(i) => position_of(self@.participants, *who) == Some(i as int) && i
                    < self@.participants.len(),
                None => position_of(self@.participants, *who) is None,
            },
    {
        let mut i: usize = 0;
        while i < self.participants.len()
            invariant
                i <= self.participants.len(),
                forall|j: int| 0 <= j < i ==> self.participants@[j] != *who,
            decreases self.participants.len() - i,
        {
            if self.participants[i] == *who {
                proof {
                    lemma_position_of(self@.participants, *who, i as int);
                }
                return Some(i);
            }
            i += 1;
        }
        None
    }

    /// Whether both legs are paid, or which are.
    pub fn status(&self) -> (r: FulfillStatus)
        requires
            self.wf(),
        ensures
            r == status_of(self@.is_approved),
    {
        if self.is_approved[0] && self.is_approved[1] {
            FulfillStatus::Fulfilled
        } else {
            FulfillStatus::Pending { first: self.is_approved[0], second: self.is_approved[1] }
        }
    }

    /// The authority that signs for this record's transfers, rebuilt from the
    /// base and the bump that the record was made with.
    pub fn delegate(&self) -> (d: AuthorityDelegate)
        ensures
            d == self@.delegate(),
    {
        AuthorityDelegate { base: self.base, bump: self.bump }
    }

    /// The transfer that pays the leg at `index`. It moves tokens along the
    /// leg as the record names it, whatever accounts the descriptor names;
    /// of the descriptor it takes the authority and the amount.
    pub fn leg_transfer(&self, index: usize, ix: &TXInstruction) -> (t: TXInstruction)
        requires
            self.wf(),
            index < 2,
        ensures
            t == self@.leg_transfer(index as int, *ix),
    {
        TXInstruction {
            source: self.from_keys[index],
            destination: self.to_keys[index],
            authority: ix.authority,
            amount: ix.amount,
        }
    }

    /// Holds a fulfilment against the rules, before anything is written or
    /// sent: the caller must be a participant, and the amount stated, the
    /// amount in the descriptor and the amount owed must all agree.
    pub fn check_fulfill(&self, who: &Key, ix: &TXInstruction, amount: u64) -> (r: Result<
        FulfillStep,
        Errors,
    >)
        requires
            self.wf(),
        ensures
            r == self@.check_fulfill(*who, *ix, amount),
    {
        match self.position(who) {
            None => Err(Errors::InvalidParticipant),
            Some(i) => {
                if amount != self.required_amounts[i] || ix.amount != amount {
                    Err(Errors::FullfillmentAmountNotExact)
                } else if self.is_approved[i] {
                    Ok(FulfillStep::Settled)
                } else {
                    Ok(FulfillStep::Transfer { index: i })
                }
            },
        }
    }
}

} // verus!
