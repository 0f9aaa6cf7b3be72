use vstd::prelude::*;
use anchor_lang::solana_program::program_error::ProgramError;

verus! {

/// The ledger's own failure type. Nothing is known of a value of it here: it
/// is carried from the ledger call to the caller as it came.
#[verifier::external_type_specification]
#[verifier::external_body]
pub struct ExProgramError(ProgramError);

/// The rules of the escrow that a request can break. Each is found before
/// anything is written or sent.
#[derive(Clone, Copy, Debug, PartialEq, Eq, Structural)]
pub enum Errors {
    /// A record binds exactly two participants, with one amount, one source
    /// and one destination each.
    ExactlyTwoParticipantsAllowed,
    /// The caller is not one of the record's participants.
    InvalidParticipant,
    /// The amount offered is not the amount that the record asks of the caller.
    FullfillmentAmountNotExact,
}

impl Errors {
    /// The wording of each error.
    pub open spec fn message_text(self) -> Seq<char> {
        match self {
            Errors::ExactlyTwoParticipantsAllowed =>
                "Exactly two participants are allowed to participate with two amounts in the escrow. Not more not less"@,
            Errors::InvalidParticipant => "Invalid participant"@,
            Errors::FullfillmentAmountNotExact => "Amount not exact"@,
        }
    }

    /// The text shown to a client for this error.
    pub fn message(&self) -> (s: String)
        ensures
            s@ == self.message_text(),
    {
        match self {
            Errors::ExactlyTwoParticipantsAllowed =>
                "Exactly two participants are allowed to participate with two amounts in the escrow. Not more not less".to_owned(),
            Errors::InvalidParticipant => "Invalid participant".to_owned(),
            Errors::FullfillmentAmountNotExact => "Amount not exact".to_owned(),
        }
    }
}

/// Why a fulfilment did not go through.
#[derive(Debug, PartialEq, Eq)]
pub enum FulfillError {
    /// The request broke a rule of the escrow; nothing was sent to the ledger.
    Rejected(Errors),
    /// The ledger refused the transfer; the record is as it was before.
    Ledger(ProgramError),
}

} // verus!
